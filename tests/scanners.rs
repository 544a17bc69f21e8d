use scanners::{
    launch_failure, prepare, render, LaunchError, ScanError, Scanner, ScannerType, Target,
    TargetError, Token,
};

fn lit(s: &str) -> Token {
    Token::Literal(s.to_string())
}

fn target(text: &str) -> Target {
    Target::parse(text).expect("valid URL")
}

fn strings(v: &[&str]) -> Vec<String> {
    v.iter().map(|s| s.to_string()).collect()
}

const ALL: [ScannerType; 7] = [
    ScannerType::Dirsearch,
    ScannerType::Httpx,
    ScannerType::Katana,
    ScannerType::Nuclei,
    ScannerType::Waybackurls,
    ScannerType::Subfinder,
    ScannerType::Naabu,
];

#[test]
fn catalog_entries_are_fixed_and_named() {
    for kind in ALL {
        let a = Scanner::new(kind);
        let b = Scanner::new(kind);
        assert!(!a.command().is_empty());
        assert_eq!(a.command(), b.command());
        assert_eq!(a.args(), b.args());
    }
}

#[test]
fn catalog_table_rows() {
    let dirsearch = Scanner::new(ScannerType::Dirsearch);
    assert_eq!(dirsearch.command(), "dirsearch");
    assert_eq!(
        dirsearch.args(),
        &vec![lit("-u"), Token::UrlPlaceholder, lit("--format=plain"), lit("-quiet")]
    );
    let katana = Scanner::new(ScannerType::Katana);
    assert_eq!(katana.command(), "katana");
    assert_eq!(katana.args(), &vec![lit("-u"), Token::UrlPlaceholder]);
    let nuclei = Scanner::new(ScannerType::Nuclei);
    assert_eq!(nuclei.command(), "nuclei");
    assert_eq!(
        nuclei.args(),
        &vec![lit("-nc"), lit("-u"), Token::UrlPlaceholder, lit("--silent")]
    );
    let wayback = Scanner::new(ScannerType::Waybackurls);
    assert_eq!(wayback.command(), "waybackurls");
    assert_eq!(wayback.args(), &vec![Token::UrlPlaceholder]);
    let naabu = Scanner::new(ScannerType::Naabu);
    assert_eq!(naabu.command(), "naabu");
    assert_eq!(
        naabu.args(),
        &vec![lit("-host"), Token::HostPlaceholder, lit("--silent")]
    );
}

#[test]
fn render_keeps_order_and_replaces_url_exactly() {
    let t = target("https://example.com");
    let tpl = vec![lit("-u"), Token::UrlPlaceholder, lit("-quiet")];
    assert_eq!(
        render(&tpl, &t),
        Some(strings(&["-u", "https://example.com", "-quiet"]))
    );
}

#[test]
fn render_host_without_authority_fails() {
    let t = target("mailto:someone@example.com");
    assert_eq!(t.host(), None);
    let tpl = vec![lit("-d"), Token::HostPlaceholder];
    assert_eq!(render(&tpl, &t), None);
    assert_eq!(
        prepare(ScannerType::Subfinder, &t),
        Err(ScanError::HostResolution(ScannerType::Subfinder))
    );
    assert_eq!(
        prepare(ScannerType::Naabu, &t),
        Err(ScanError::HostResolution(ScannerType::Naabu))
    );
}

#[test]
fn render_url_without_authority_succeeds() {
    let t = target("mailto:someone@example.com");
    let inv = prepare(ScannerType::Katana, &t).expect("no host needed");
    assert_eq!(inv.program, "katana");
    assert_eq!(inv.args, strings(&["-u", "mailto:someone@example.com"]));
}

#[test]
fn render_is_repeatable() {
    let t = target("https://example.com/path?q=1");
    let tpl = vec![
        Token::HostPlaceholder,
        lit("x y"),
        Token::UrlPlaceholder,
        Token::HostPlaceholder,
    ];
    let first = render(&tpl, &t);
    let second = render(&tpl, &t);
    assert_eq!(first, second);
    assert_eq!(
        first,
        Some(strings(&[
            "example.com",
            "x y",
            "https://example.com/path?q=1",
            "example.com"
        ]))
    );
}

#[test]
fn literal_only_template_is_unchanged() {
    let tpl = vec![lit("--version"), lit(""), lit("-a b")];
    let expected = strings(&["--version", "", "-a b"]);
    for text in ["https://example.com", "mailto:a@b.c", "data:text/plain,hi"] {
        assert_eq!(render(&tpl, &target(text)), Some(expected.clone()));
    }
    assert_eq!(render(&Vec::new(), &target("https://example.com")), Some(Vec::new()));
}

#[test]
fn end_to_end_httpx() {
    let t = target("https://e-aulas.urosario.edu.co");
    let inv = prepare(ScannerType::Httpx, &t).expect("httpx needs no host");
    assert_eq!(inv.program, "httpx-pd");
    assert_eq!(
        inv.args,
        strings(&[
            "-sc",
            "-fr",
            "-title",
            "-u",
            "https://e-aulas.urosario.edu.co",
            "-nc",
            "-silent"
        ])
    );
}

#[test]
fn end_to_end_subfinder() {
    let t = target("https://e-aulas.urosario.edu.co");
    let inv = prepare(ScannerType::Subfinder, &t).expect("target has a host");
    assert_eq!(inv.program, "subfinder");
    assert_eq!(inv.args, strings(&["-d", "e-aulas.urosario.edu.co", "--silent"]));
}

#[test]
fn end_to_end_other_scanners() {
    let t = target("https://example.org:8443/a");
    let dirsearch = prepare(ScannerType::Dirsearch, &t).unwrap();
    assert_eq!(dirsearch.program, "dirsearch");
    assert_eq!(
        dirsearch.args,
        strings(&["-u", "https://example.org:8443/a", "--format=plain", "-quiet"])
    );
    let nuclei = prepare(ScannerType::Nuclei, &t).unwrap();
    assert_eq!(
        nuclei.args,
        strings(&["-nc", "-u", "https://example.org:8443/a", "--silent"])
    );
    let wayback = prepare(ScannerType::Waybackurls, &t).unwrap();
    assert_eq!(wayback.args, strings(&["https://example.org:8443/a"]));
    let naabu = prepare(ScannerType::Naabu, &t).unwrap();
    assert_eq!(naabu.program, "naabu");
    assert_eq!(naabu.args, strings(&["-host", "example.org", "--silent"]));
}

#[test]
fn target_keeps_text_and_finds_host() {
    let t = target("https://e-aulas.urosario.edu.co");
    assert_eq!(t.full_url(), "https://e-aulas.urosario.edu.co");
    assert_eq!(t.host(), Some("e-aulas.urosario.edu.co"));
    let ip = target("http://[::1]:8080/");
    assert_eq!(ip.host(), Some("[::1]"));
}

#[test]
fn target_rejects_relative_text() {
    match Target::parse("not a url") {
        Err(TargetError::InvalidUrl(_)) => {}
        other => panic!("expected an invalid URL, got {:?}", other),
    }
    assert!(Target::parse("").is_err());
    assert!(Target::parse("https://").is_err());
}

#[test]
fn launch_failures_are_classified() {
    assert_eq!(
        launch_failure(ScannerType::Katana, true, "no such file".to_string()),
        ScanError::Launch(LaunchError::NotFound(ScannerType::Katana))
    );
    assert_eq!(
        launch_failure(ScannerType::Nuclei, false, "permission denied".to_string()),
        ScanError::Launch(LaunchError::OsRejected(
            ScannerType::Nuclei,
            "permission denied".to_string()
        ))
    );
}
