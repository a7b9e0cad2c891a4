use libexec_link::error::{Ancestor, ErrorKind, LinkError};
use libexec_link::plan::{ancestor, install_dirs, link_path, plan, target, LinkPlan, LINK_NAME};
use libexec_link::text::{is_white_space, trim};

#[test]
fn binary_and_base_are_first_and_second_parent() {
    let dirs = install_dirs("/opt/tool/bin/app").unwrap();
    assert_eq!(dirs.binary_dir, "/opt/tool/bin");
    assert_eq!(dirs.base_dir, "/opt/tool");
}

#[test]
fn home_install_has_its_base_above_bin() {
    let dirs = install_dirs("/home/user/.git-ai/bin/git-ai").unwrap();
    assert_eq!(dirs.binary_dir, "/home/user/.git-ai/bin");
    assert_eq!(dirs.base_dir, "/home/user/.git-ai");
}

#[test]
fn executable_at_root_has_no_binary_directory() {
    assert_eq!(install_dirs("/"), Err(LinkError::MissingParent(Ancestor::BinaryDirectory)));
    assert_eq!(install_dirs(""), Err(LinkError::MissingParent(Ancestor::BinaryDirectory)));
}

#[test]
fn executable_directly_under_root_has_no_base_directory() {
    assert_eq!(install_dirs("/app"), Err(LinkError::MissingParent(Ancestor::BaseDirectory)));
}

#[test]
fn relative_executable_with_one_directory_has_an_empty_base() {
    let dirs = install_dirs("bin/app").unwrap();
    assert_eq!(dirs.binary_dir, "bin");
    assert_eq!(dirs.base_dir, "");
}

#[test]
fn ancestor_passes_a_found_parent_on() {
    assert_eq!(
        ancestor(Some("/usr/libexec".to_string()), Ancestor::LibexecDirectory),
        Ok("/usr/libexec".to_string())
    );
}

#[test]
fn ancestor_names_the_missing_directory() {
    assert_eq!(
        ancestor(None, Ancestor::BinaryDirectory),
        Err(LinkError::MissingParent(Ancestor::BinaryDirectory))
    );
    assert_eq!(
        ancestor(None, Ancestor::BaseDirectory),
        Err(LinkError::MissingParent(Ancestor::BaseDirectory))
    );
    assert_eq!(
        ancestor(None, Ancestor::LibexecDirectory),
        Err(LinkError::MissingParent(Ancestor::LibexecDirectory))
    );
}

#[test]
fn target_is_the_parent_of_the_reported_path() {
    assert_eq!(target(b"/usr/libexec/git-core".to_vec()), Ok("/usr/libexec".to_string()));
}

#[test]
fn target_ignores_white_space_around_the_output() {
    assert_eq!(target(b"/usr/libexec/git-core\n".to_vec()), Ok("/usr/libexec".to_string()));
    assert_eq!(
        target(b"  \t/usr/lib/git-core\r\n\n".to_vec()),
        Ok("/usr/lib".to_string())
    );
}

#[test]
fn target_keeps_white_space_inside_the_path() {
    assert_eq!(
        target(b"/Program Files/Git/libexec/git-core\n".to_vec()),
        Ok("/Program Files/Git/libexec".to_string())
    );
}

#[test]
fn target_decodes_characters_beyond_ascii() {
    let output = "/usr/lib\u{e9}xec/git-core\n".as_bytes().to_vec();
    assert_eq!(target(output), Ok("/usr/lib\u{e9}xec".to_string()));
}

#[test]
fn target_of_a_root_path_is_a_path_derivation_error() {
    let failure = target(b"/\n".to_vec()).unwrap_err();
    assert_eq!(failure, LinkError::MissingParent(Ancestor::LibexecDirectory));
    assert_eq!(failure.kind(), ErrorKind::PathDerivation);
}

#[test]
fn target_of_empty_output_is_a_path_derivation_error() {
    assert_eq!(
        target(Vec::new()),
        Err(LinkError::MissingParent(Ancestor::LibexecDirectory))
    );
    assert_eq!(
        target(b" \n".to_vec()),
        Err(LinkError::MissingParent(Ancestor::LibexecDirectory))
    );
}

#[test]
fn target_of_undecodable_output_is_an_encoding_error() {
    assert_eq!(target(vec![0x2f, 0xff, 0x2f, 0x61]), Err(LinkError::Encoding));
    assert_eq!(target(vec![0xc3]), Err(LinkError::Encoding));
    assert_eq!(target(vec![0xed, 0xa0, 0x80]), Err(LinkError::Encoding));
}

#[test]
fn undecodable_output_fails_before_the_parent_is_sought() {
    assert_eq!(target(vec![0xff]), Err(LinkError::Encoding));
}

#[test]
fn link_is_named_libexec_under_the_base() {
    assert_eq!(LINK_NAME, "libexec");
    assert_eq!(link_path("/opt/tool"), "/opt/tool/libexec");
    assert_eq!(link_path("/"), "/libexec");
    assert_eq!(link_path(""), "libexec");
}

#[test]
fn plan_joins_link_and_target() {
    assert_eq!(
        plan("/opt/tool", b"/usr/libexec/git-core\n".to_vec()),
        Ok(LinkPlan { link: "/opt/tool/libexec".to_string(), target: "/usr/libexec".to_string() })
    );
}

#[test]
fn plan_fails_as_the_target_does() {
    assert_eq!(plan("/opt/tool", vec![0x80]), Err(LinkError::Encoding));
    assert_eq!(
        plan("/opt/tool", b"/".to_vec()),
        Err(LinkError::MissingParent(Ancestor::LibexecDirectory))
    );
}

#[test]
fn trim_removes_white_space_at_both_ends_only() {
    assert_eq!(trim("  a b  "), "a b");
    assert_eq!(trim("\n/usr/libexec/git-core\r\n"), "/usr/libexec/git-core");
    assert_eq!(trim("abc"), "abc");
    assert_eq!(trim(""), "");
    assert_eq!(trim(" \t\n"), "");
    assert_eq!(trim("\u{a0}\u{3000}x\u{2003}\u{85}"), "x");
    assert_eq!(trim("\u{200b}x\u{200b}"), "\u{200b}x\u{200b}");
}

#[test]
fn trim_agrees_with_the_standard_library() {
    let samples = [
        "",
        " ",
        "a",
        " a",
        "a ",
        "\t\u{b}\u{c}\r\n a \u{1680}\u{2028}\u{2029}\u{202f}\u{205f}",
        "\u{e9}t\u{e9} \u{4e2d}\u{6587} ",
        "\u{180e}a\u{180e}",
        "  /usr/lib/git-core  \n",
    ];
    for sample in samples {
        assert_eq!(trim(sample), sample.trim());
    }
}

#[test]
fn white_space_is_the_unicode_property() {
    let mut count = 0;
    for code in 0..=0x10ffffu32 {
        if let Some(c) = char::from_u32(code) {
            assert_eq!(is_white_space(c), c.is_whitespace(), "U+{:04X}", code);
            if is_white_space(c) {
                count += 1;
            }
        }
    }
    assert_eq!(count, 25);
}

#[test]
fn missing_parents_are_described() {
    assert_eq!(Ancestor::BinaryDirectory.description(), "cannot determine binary directory");
    assert_eq!(Ancestor::BaseDirectory.description(), "cannot determine base directory");
    assert_eq!(
        Ancestor::LibexecDirectory.description(),
        "cannot determine libexec directory from exec-path"
    );
}

#[test]
fn failures_are_sorted_by_cause() {
    assert_eq!(LinkError::Executable("gone".to_string()).kind(), ErrorKind::Environment);
    assert_eq!(LinkError::MissingParent(Ancestor::BinaryDirectory).kind(), ErrorKind::Environment);
    assert_eq!(LinkError::MissingParent(Ancestor::BaseDirectory).kind(), ErrorKind::Environment);
    assert_eq!(
        LinkError::MissingParent(Ancestor::LibexecDirectory).kind(),
        ErrorKind::PathDerivation
    );
    assert_eq!(LinkError::Subprocess("exit 1".to_string()).kind(), ErrorKind::Subprocess);
    assert_eq!(LinkError::Encoding.kind(), ErrorKind::Subprocess);
    assert_eq!(LinkError::Filesystem("denied".to_string()).kind(), ErrorKind::Filesystem);
}

#[test]
fn messages_carry_the_report_or_the_description() {
    assert_eq!(LinkError::Executable("no such process".to_string()).message(), "no such process");
    assert_eq!(LinkError::Subprocess("git: not found".to_string()).message(), "git: not found");
    assert_eq!(LinkError::Filesystem("Is a directory".to_string()).message(), "Is a directory");
    assert_eq!(
        LinkError::MissingParent(Ancestor::BinaryDirectory).message(),
        "cannot determine binary directory"
    );
    assert_eq!(LinkError::Encoding.message(), "exec-path is not valid UTF-8");
}
