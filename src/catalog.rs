use vstd::prelude::*;
use crate::template::{Token, TokenView, tokens_view};

verus! {

/// The scanners this library knows how to launch.
#[derive(Debug, Clone, Copy, PartialEq, Eq, Structural)]
pub enum ScannerType {
    Dirsearch,
    Httpx,
    Katana,
    Nuclei,
    Waybackurls,
    Subfinder,
    Naabu,
}

/// The executable that runs each scanner.
pub open spec fn catalog_command(kind: ScannerType) -> Seq<char> {
    match kind {
        ScannerType::Dirsearch => "dirsearch"@,
        ScannerType::Httpx => "httpx-pd"@,
        ScannerType::Katana => "katana"@,
        ScannerType::Nuclei => "nuclei"@,
        ScannerType::Waybackurls => "waybackurls"@,
        ScannerType::Subfinder => "subfinder"@,
        ScannerType::Naabu => "naabu"@,
    }
}

/// The argument template of each scanner.
pub open spec fn catalog_args(kind: ScannerType) -> Seq<TokenView> {
    let url = TokenView::UrlPlaceholder;
    let host = TokenView::HostPlaceholder;
    match kind {
        ScannerType::Dirsearch => seq![
            TokenView::Literal("-u"@), url,
            TokenView::Literal("--format=plain"@), TokenView::Literal("-quiet"@),
        ],
        ScannerType::Httpx => seq![
            TokenView::Literal("-sc"@), TokenView::Literal("-fr"@), TokenView::Literal("-title"@),
            TokenView::Literal("-u"@), url, TokenView::Literal("-nc"@),
            TokenView::Literal("-silent"@),
        ],
        ScannerType::Katana => seq![TokenView::Literal("-u"@), url],
        ScannerType::Nuclei => seq![
            TokenView::Literal("-nc"@), TokenView::Literal("-u"@), url,
            TokenView::Literal("--silent"@),
        ],
        ScannerType::Waybackurls => seq![url],
        ScannerType::Subfinder => seq![
            TokenView::Literal("-d"@), host, TokenView::Literal("--silent"@),
        ],
        ScannerType::Naabu => seq![
            TokenView::Literal("-host"@), host, TokenView::Literal("--silent"@),
        ],
    }
}

fn lit(s: &str) -> (t: Token)
    ensures
        t@ == TokenView::Literal(s@),
{
    Token::Literal(s.to_owned())
}

/// Every identifier has exactly one catalog entry, whose executable name is
/// not empty: two scanners built for one identifier agree in executable and
/// template.
pub proof fn lemma_catalog_entry(kind: ScannerType, a: Scanner, b: Scanner)
    requires
        a.command_view() == catalog_command(kind),
        a.args_view() == catalog_args(kind),
        b.command_view() == catalog_command(kind),
        b.args_view() == catalog_args(kind),
    ensures
        a.command_view().len() > 0,
        a.command_view() == b.command_view(),
        a.args_view() == b.args_view(),
{
    reveal_strlit("dirsearch");
    reveal_strlit("httpx-pd");
    reveal_strlit("katana");
    reveal_strlit("nuclei");
    reveal_strlit("waybackurls");
    reveal_strlit("subfinder");
    reveal_strlit("naabu");
}

/// A scanner: the executable to run and the template of its arguments.
#[derive(Debug, Clone)]
pub struct Scanner {
    command: String,
    args: Vec<Token>,
}

impl Scanner {
    /// The executable's name.
    pub closed spec fn command_view(&self) -> Seq<char> {
        self.command@
    }

    /// The argument template.
    pub closed spec fn args_view(&self) -> Seq<TokenView> {
        tokens_view(self.args@)
    }

    /// The catalog entry of `kind`.
    pub fn new(kind: ScannerType) -> (s: Scanner)
        ensures
            s.command_view() == catalog_command(kind),
            s.args_view() == catalog_args(kind),
    {
        let (command, args) = match kind {
            ScannerType::Dirsearch => (
                "dirsearch",
                vec![lit("-u"), Token::UrlPlaceholder, lit("--format=plain"), lit("-quiet")],
            ),
            ScannerType::Httpx => (
                "httpx-pd",
                vec![
                    lit("-sc"), lit("-fr"), lit("-title"), lit("-u"), Token::UrlPlaceholder,
                    lit("-nc"), lit("-silent"),
                ],
            ),
            ScannerType::Katana => ("katana", vec![lit("-u"), Token::UrlPlaceholder]),
            ScannerType::Nuclei => (
                "nuclei",
                vec![lit("-nc"), lit("-u"), Token::UrlPlaceholder, lit("--silent")],
            ),
            ScannerType::Waybackurls => ("waybackurls", vec![Token::UrlPlaceholder]),
            ScannerType::Subfinder => (
                "subfinder",
                vec![lit("-d"), Token::HostPlaceholder, lit("--silent")],
            ),
            ScannerType::Naabu => (
                "naabu",
                vec![lit("-host"), Token::HostPlaceholder, lit("--silent")],
            ),
        };
        let s = Scanner { command: command.to_owned(), args };
        assert(s.args_view() =~= catalog_args(kind));
        s
    }

    /// The executable's name.
    pub fn command(&self) -> (r: &str)
        ensures
            r@ == self.command_view(),
    {
        self.command.as_str()
    }

    /// The argument template.
    pub fn args(&self) -> (r: &Vec<Token>)
        ensures
            tokens_view(r@) == self.args_view(),
    {
        &self.args
    }
}

} // verus!
