use dsh_desktop::version::version_before;
use dsh_desktop::command::{run_version, server_port, CommandOutcome};
use dsh_desktop::messages::{command_line, port_unreachable_text, Command};
use dsh_desktop::text::{
    decimal_text, extract_local_url, first_line_trimmed, normalize_version, port_of_url, trim_text,
};

#[test]
fn normalize_strips_prefix_and_suffix() {
    assert_eq!(normalize_version("v1.2.3"), "1.2.3");
    assert_eq!(normalize_version("  1.0.5\n"), "1.0.5");
    assert_eq!(normalize_version("dsh 2.0.1-"), "2.0.1");
    // any word that starts with a lower-case v counts as a version word
    assert_eq!(normalize_version("dsh version v2.0.1-"), "ersion");
    assert_eq!(normalize_version("x 1.0."), "1.0");
    assert_eq!(normalize_version("\u{3000}9.9\u{3000}"), "9.9");
}

#[test]
fn normalize_without_version_word_keeps_trimmed_text() {
    assert_eq!(normalize_version("no digits here"), "no digits here");
    // an upper-case V does not start a version word, but is stripped afterwards
    assert_eq!(normalize_version(" V3.0 "), "3.0");
    assert_eq!(normalize_version(""), "");
    assert_eq!(normalize_version("   "), "");
}

#[test]
fn normalize_takes_first_version_word_only() {
    assert_eq!(normalize_version("vv"), "");
    assert_eq!(normalize_version("release 10.2.0 build 7"), "10.2.0");
    assert_eq!(normalize_version("V1 y"), "1 y");
}

#[test]
fn normalized_versions_are_bare() {
    for input in ["v1.2.3-", "V..", "-v-", "1.-.-", "vV", "beta v0.9.-"] {
        let n = normalize_version(input);
        assert!(!n.starts_with('v') && !n.starts_with('V'), "{input:?} -> {n:?}");
        assert!(!n.ends_with('.') && !n.ends_with('-'), "{input:?} -> {n:?}");
    }
}

#[test]
fn local_url_is_extracted() {
    assert_eq!(
        extract_local_url("dsh web: http://127.0.0.1:51234/").as_deref(),
        Some("http://127.0.0.1:51234")
    );
    assert_eq!(
        extract_local_url("[info] dsh web: http://127.0.0.1:80 ready").as_deref(),
        Some("http://127.0.0.1:80")
    );
    assert_eq!(
        extract_local_url("dsh web: http://127.0.0.1:8080///").as_deref(),
        Some("http://127.0.0.1:8080")
    );
    assert_eq!(
        extract_local_url("dsh web: http://127.0.0.1:+80").as_deref(),
        Some("http://127.0.0.1:+80")
    );
}

#[test]
fn local_url_needs_a_port() {
    assert_eq!(extract_local_url("dsh web: http://127.0.0.1:"), None);
    assert_eq!(extract_local_url("dsh web: http://127.0.0.1:/"), None);
    assert_eq!(extract_local_url("dsh web: http://127.0.0.1:99999"), None);
    assert_eq!(extract_local_url("dsh web: http://127.0.0.1:80/app"), None);
}

#[test]
fn local_url_only_on_loopback() {
    assert_eq!(extract_local_url("dsh web: http://localhost:80"), None);
    assert_eq!(extract_local_url("dsh web: http://0.0.0.0:80"), None);
    assert_eq!(extract_local_url("listening on http://127.0.0.1:80"), None);
    assert_eq!(extract_local_url(""), None);
    for line in ["dsh web: http://127.0.0.1:1", "x dsh web: http://127.0.0.1:65535/ y"] {
        let url = extract_local_url(line).unwrap();
        assert!(url.starts_with("http://127.0.0.1:"));
        assert!(port_of_url(&url).is_some());
    }
}

#[test]
fn ports_parse_as_u16_does() {
    assert_eq!(port_of_url("http://127.0.0.1:8080"), Some(8080));
    assert_eq!(port_of_url("http://127.0.0.1:0"), Some(0));
    assert_eq!(port_of_url("x:65535"), Some(65535));
    assert_eq!(port_of_url("x:0080"), Some(80));
    assert_eq!(port_of_url("x:+7"), Some(7));
    assert_eq!(port_of_url("x:65536"), None);
    assert_eq!(port_of_url("x:-1"), None);
    assert_eq!(port_of_url("x:+"), None);
    assert_eq!(port_of_url("x:"), None);
    assert_eq!(port_of_url("8080"), Some(8080));
    assert_eq!(port_of_url("abc"), None);
}

#[test]
fn decimal_text_writes_digits() {
    assert_eq!(decimal_text(0), "0");
    assert_eq!(decimal_text(7), "7");
    assert_eq!(decimal_text(10), "10");
    assert_eq!(decimal_text(65535), "65535");
    assert_eq!(port_unreachable_text(8080), "无法连接 DSH 本地端口 8080。");
}

#[test]
fn trimming_and_first_line() {
    assert_eq!(trim_text(" \t a b \r\n"), "a b");
    assert_eq!(trim_text("\u{a0}x\u{2028}"), "x");
    assert_eq!(first_line_trimmed("1.0.0\r\nmore"), "1.0.0");
    assert_eq!(first_line_trimmed(" a \nb"), "a");
    assert_eq!(first_line_trimmed("single"), "single");
}

#[test]
fn command_lines_use_the_mirror() {
    assert_eq!(command_line(Command::NodeVersion), "node --version");
    assert_eq!(
        command_line(Command::InstallDsh),
        "npm install --global @deepseek-ai/dsh --registry=https://registry.npmmirror.com"
    );
    assert_eq!(
        command_line(Command::UpdateDsh),
        "npm install --global @deepseek-ai/dsh@latest --registry=https://registry.npmmirror.com"
    );
    assert_eq!(
        command_line(Command::LatestDsh),
        "npm view @deepseek-ai/dsh version --registry=https://registry.npmmirror.com"
    );
    assert_eq!(command_line(Command::ServeDsh), "dsh web --host 127.0.0.1 --port 0");
}

fn exited(success: bool, status: &str, stdout: &[u8], stderr: &[u8]) -> CommandOutcome {
    CommandOutcome::Exited {
        success,
        status: status.to_string(),
        stdout: stdout.to_vec(),
        stderr: stderr.to_vec(),
    }
}

#[test]
fn run_version_reads_first_line() {
    assert_eq!(
        run_version("node --version", exited(true, "exit status: 0", b"v20.11.1\n", b"")),
        Ok("v20.11.1".to_string())
    );
    assert_eq!(
        run_version("dsh --version", exited(true, "exit status: 0", b"\n 1.4.0 \r\nbuilt today\n", b"")),
        Ok("1.4.0".to_string())
    );
}

#[test]
fn run_version_errors() {
    assert_eq!(
        run_version("node --version", CommandOutcome::NotStarted("not found".to_string())),
        Err("无法执行 node --version：not found".to_string())
    );
    assert_eq!(
        run_version("dsh --version", exited(true, "exit status: 0", b" \n\t", b"")),
        Err("命令 dsh --version 没有返回版本信息。".to_string())
    );
    assert_eq!(
        run_version("dsh --version", exited(false, "exit status: 1", b"1.0", b"  not recognized \n")),
        Err("not recognized".to_string())
    );
    assert_eq!(
        run_version("dsh --version", exited(false, "exit status: 1", b"", b"  ")),
        Err("命令 dsh --version 返回 exit status: 1。".to_string())
    );
}

#[test]
fn run_version_decodes_invalid_utf8_lossily() {
    let r = run_version("x", exited(true, "exit status: 0", b"1.0\xff", b"")).unwrap();
    assert_eq!(r, "1.0\u{fffd}");
    let e = run_version("x", exited(false, "exit status: 2", b"", "失败".as_bytes())).unwrap_err();
    assert_eq!(e, "失败");
}

#[test]
fn server_port_of_url() {
    assert_eq!(server_port("http://127.0.0.1:3000"), Ok(3000));
    assert_eq!(
        server_port("http://127.0.0.1:x"),
        Err("DSH 返回了无法识别的地址：http://127.0.0.1:x".to_string())
    );
}

#[test]
fn version_order_is_numeric_by_part() {
    assert!(version_before("0.4.9", "0.5.0"));
    assert!(!version_before("0.5.0", "0.4.9"));
    assert!(version_before("1.9.9", "1.10.0"));
    assert!(!version_before("1.2.3", "1.2.3"));
    assert!(!version_before("1.2", "1.2.0"));
    assert!(version_before("1.2", "1.2.1"));
    assert!(!version_before("007.1", "7.1"));
    assert!(version_before("", "0.0.1"));
    assert!(!version_before("2.0.0", ""));
    assert!(version_before("99999999999999999999999.1", "100000000000000000000000.0"));
}

#[test]
fn normalizing_twice_is_normalizing_once() {
    for s in ["dsh v1.2.3-", "  V2.0.", "@deepseek-ai/dsh 0.9.1", "release", "x 1.0."] {
        let once = normalize_version(s);
        assert_eq!(normalize_version(&once), once, "{s}");
    }
    // a text without a version word whose trimmed form is several words
    assert_eq!(normalize_version("V1 y"), "1 y");
    assert_eq!(normalize_version("1 y"), "1");
}

#[test]
fn pre_releases_come_before_their_release() {
    let ordered = [
        "1.0.0-alpha",
        "1.0.0-alpha.1",
        "1.0.0-alpha.beta",
        "1.0.0-beta",
        "1.0.0-beta.2",
        "1.0.0-beta.11",
        "1.0.0-rc.1",
        "1.0.0",
        "1.0.1-0",
        "1.0.1",
    ];
    for i in 0..ordered.len() {
        assert!(!version_before(ordered[i], ordered[i]), "{}", ordered[i]);
        for j in i + 1..ordered.len() {
            assert!(version_before(ordered[i], ordered[j]), "{} < {}", ordered[i], ordered[j]);
            assert!(!version_before(ordered[j], ordered[i]), "{} > {}", ordered[j], ordered[i]);
        }
    }
    assert!(version_before("1.2.3-beta", "1.2.3"));
    assert!(!version_before("1.0.0+build.5", "1.0.0"));
    assert!(!version_before("1.0.0", "1.0.0+build.5"));
    assert!(version_before("1.0.0-rc.1+build.1", "1.0.0+build.0"));
}
