use vstd::prelude::*;
use crate::target::Target;

verus! {

/// One element of an argument template: a literal argument, or a placeholder
/// that rendering replaces with a view of the target.
#[derive(Debug, Clone, PartialEq, Eq)]
pub enum Token {
    Literal(String),
    UrlPlaceholder,
    HostPlaceholder,
}

/// A token as a mathematical value.
pub enum TokenView {
    Literal(Seq<char>),
    UrlPlaceholder,
    HostPlaceholder,
}

impl View for Token {
    type V = TokenView;

    open spec fn view(&self) -> TokenView {
        match self {
            Token::Literal(s) => TokenView::Literal(s@),
            Token::UrlPlaceholder => TokenView::UrlPlaceholder,
            Token::HostPlaceholder => TokenView::HostPlaceholder,
        }
    }
}

/// The view of each token of a template, in order.
pub open spec fn tokens_view(v: Seq<Token>) -> Seq<TokenView> {
    v.map_values(|t: Token| t@)
}

/// What a token becomes, given the target's URL and host.
pub open spec fn token_text(t: TokenView, url: Seq<char>, host: Seq<char>) -> Seq<char> {
    match t {
        TokenView::Literal(s) => s,
        TokenView::UrlPlaceholder => url,
        TokenView::HostPlaceholder => host,
    }
}

/// The template asks for the target's host somewhere.
pub open spec fn uses_host(tpl: Seq<TokenView>) -> bool {
    exists|i: int| 0 <= i < tpl.len() && #[trigger] tpl[i] is HostPlaceholder
}

/// The template holds literal arguments only.
pub open spec fn all_literal(tpl: Seq<TokenView>) -> bool {
    forall|i: int| 0 <= i < tpl.len() ==> #[trigger] tpl[i] is Literal
}

/// The argument vector a template renders to, token by token in order;
/// none when the template needs a host that the target lacks.
pub open spec fn rendered(tpl: Seq<TokenView>, url: Seq<char>, host: Option<Seq<char>>) -> Option<Seq<Seq<char>>> {
    if uses_host(tpl) && host is None {
        None
    } else {
        let h = match host {
            Some(h) => h,
            None => Seq::empty(),
        };
        Some(Seq::new(tpl.len(), |i: int| token_text(tpl[i], url, h)))
    }
}

/// The characters of each string, in order.
pub open spec fn strings_view(v: Seq<String>) -> Seq<Seq<char>> {
    v.map_values(|s: String| s@)
}

/// The text of each literal token, in order.
pub open spec fn literal_texts(tpl: Seq<TokenView>) -> Seq<Seq<char>> {
    tpl.map_values(|t: TokenView| token_text(t, Seq::empty(), Seq::empty()))
}

/// Renders `template` against `target`: literals pass through, `URL` becomes
/// the target's full URL and `HOST` its host. Fails when a `HOST` is asked
/// for and the target has no host.
pub fn render(template: &Vec<Token>, target: &Target) -> (r: Option<Vec<String>>)
    ensures
        r.is_none() == (uses_host(tokens_view(template@)) && target.host_view() is None),
        r matches Some(v) ==> rendered(tokens_view(template@), target.url_view(), target.host_view())
            == Some(strings_view(v@)),
{
    let url = target.full_url();
    let host = target.host();
    let ghost h = match target.host_view() {
        Some(h) => h,
        None => Seq::<char>::empty(),
    };
    let ghost tpl = tokens_view(template@);
    let mut out: Vec<String> = Vec::new();
    let mut i: usize = 0;
    while i < template.len()
        invariant
            i <= template@.len(),
            url@ == target.url_view(),
            host.is_some() == target.host_view().is_some(),
            host matches Some(x) ==> x@ == h,
            target.host_view() matches Some(y) ==> y == h,
            out@.len() == i,
            forall|k: int| 0 <= k < i ==> (#[trigger] out@[k])@ == token_text(tpl[k], url@, h),
            forall|k: int| 0 <= k < i ==> !(#[trigger] tpl[k] is HostPlaceholder && host is None),
            tpl == tokens_view(template@),
        decreases template@.len() - i,
    {
        let piece = match &template[i] {
            Token::Literal(s) => s.clone(),
            Token::UrlPlaceholder => url.to_owned(),
            Token::HostPlaceholder => match host {
                Some(x) => x.to_owned(),
                None => {
                    proof {
                        assert(tpl[i as int] is HostPlaceholder);
                    }
                    return None;
                },
            },
        };
        out.push(piece);
        i = i + 1;
    }
    proof {
        assert(!(uses_host(tpl) && target.host_view() is None));
        assert(strings_view(out@) =~= Seq::new(tpl.len(), |k: int| token_text(tpl[k], url@, h)));
    }
    Some(out)
}

/// Rendering is a function of its inputs: two renderings of one template
/// against one target give the same argument vector.
pub proof fn lemma_render_repeatable(tpl: Seq<TokenView>, t: Target, first: Seq<Seq<char>>, second: Seq<Seq<char>>)
    requires
        rendered(tpl, t.url_view(), t.host_view()) == Some(first),
        rendered(tpl, t.url_view(), t.host_view()) == Some(second),
    ensures
        first == second,
{
}

/// A template without placeholders renders, against any target, to its
/// literal arguments unchanged.
pub proof fn lemma_render_literal_only(tpl: Seq<TokenView>, t: Target)
    requires
        all_literal(tpl),
    ensures
        rendered(tpl, t.url_view(), t.host_view()) == Some(literal_texts(tpl)),
{
    assert(!uses_host(tpl));
    let h = match t.host_view() {
        Some(h) => h,
        None => Seq::<char>::empty(),
    };
    assert(Seq::new(tpl.len(), |i: int| token_text(tpl[i], t.url_view(), h)) =~= literal_texts(tpl));
}

/// A template that asks for a host renders to nothing against a target
/// without one: no empty host is ever substituted.
pub proof fn lemma_render_needs_host(tpl: Seq<TokenView>, t: Target)
    requires
        uses_host(tpl),
        t.host_view() is None,
    ensures
        rendered(tpl, t.url_view(), t.host_view()) is None,
{
}

} // verus!
