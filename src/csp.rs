use vstd::prelude::*;
use std::collections::HashMap;
use crate::bundle::RemoteDomainAccessScope;

verus! {

/// A Content-Security-Policy directive source list.
#[derive(Debug, Clone, PartialEq, Eq)]
pub enum CspDirectiveSources {
    /// An inline list of CSP sources, separated by spaces.
    Inline(String),
    /// A list of CSP sources, joined with spaces in the CSP string.
    List(Vec<String>),
}

/// A directive source list as plain values.
pub enum CspSourcesView {
    Inline(Seq<char>),
    List(Seq<Seq<char>>),
}

impl View for CspDirectiveSources {
    type V = CspSourcesView;

    open spec fn view(&self) -> CspSourcesView {
        match self {
            CspDirectiveSources::Inline(s) => CspSourcesView::Inline(s@),
            CspDirectiveSources::List(l) => CspSourcesView::List(l@.map_values(|s: String| s@)),
        }
    }
}

/// `needle` occurs in `haystack` as a contiguous run.
pub open spec fn occurs_in(needle: Seq<char>, haystack: Seq<char>) -> bool {
    exists|i: int| 0 <= i && i + needle.len() <= haystack.len() && #[trigger] haystack.subrange(i, i + needle.len()) == needle
}

/// Whether `sources` configures `source`: in an inline list, `source`
/// followed by a space or preceded by one; in a list, an equal entry.
pub open spec fn sources_contain(sources: CspSourcesView, source: Seq<char>) -> bool {
    match sources {
        CspSourcesView::Inline(s) => occurs_in(source.push(' '), s) || occurs_in(seq![' '] + source, s),
        CspSourcesView::List(l) => l.contains(source),
    }
}

/// Relies on `str::contains`: whether `needle` matches a sub-slice of `haystack`.
#[verifier::external_body]
fn str_contains(haystack: &str, needle: &str) -> (r: bool)
    ensures
        r == occurs_in(needle@, haystack@),
{
    haystack.contains(needle)
}

impl Default for CspDirectiveSources {
    fn default() -> (r: Self)
        ensures
            r@ == CspSourcesView::List(Seq::empty()),
    {
        let r = CspDirectiveSources::List(Vec::new());
        assert(r@ matches CspSourcesView::List(l) && l =~= Seq::empty());
        r
    }
}

impl CspDirectiveSources {
    /// Whether the given source is configured on this directive or not.
    pub fn contains(&self, source: &str) -> (r: bool)
        ensures
            r == sources_contain(self@, source@),
    {
        match self {
            CspDirectiveSources::Inline(s) => {
                proof {
                    reveal_strlit(" ");
                }
                let mut trailing = String::from_str(source);
                trailing.append(" ");
                let mut leading = String::from_str(" ");
                leading.append(source);
                assert(trailing@ =~= source@.push(' '));
                assert(leading@ =~= seq![' '] + source@);
                str_contains(s.as_str(), trailing.as_str()) || str_contains(s.as_str(), leading.as_str())
            },
            CspDirectiveSources::List(l) => {
                let wanted = String::from_str(source);
                let mut i: usize = 0;
                while i < l.len()
                    invariant
                        i <= l@.len(),
                        wanted@ == source@,
                        self@ == CspSourcesView::List(l@.map_values(|s: String| s@)),
                        forall|j: int| 0 <= j < i ==> l@[j]@ != source@,
                    decreases l@.len() - i,
                {
                    if l[i].eq(&wanted) {
                        assert(l@.map_values(|s: String| s@)[i as int] == source@);
                        return true;
                    }
                    i = i + 1;
                }
                proof {
                    let views = l@.map_values(|s: String| s@);
                    assert forall|j: int| 0 <= j < views.len() implies views[j] != source@ by {
                        assert(views[j] == l@[j]@);
                    }
                }
                false
            },
        }
    }

    /// Appends the given source to this directive: after a space in an
    /// inline list, as a new entry in a list.
    pub fn push(&mut self, source: &str)
        ensures
            final(self)@ == match old(self)@ {
                CspSourcesView::Inline(s) => CspSourcesView::Inline(s.push(' ') + source@),
                CspSourcesView::List(l) => CspSourcesView::List(l.push(source@)),
            },
    {
        match self {
            CspDirectiveSources::Inline(s) => {
                proof {
                    reveal_strlit(" ");
                }
                let ghost before = s@;
                s.append(" ");
                s.append(source);
                assert(s@ =~= before.push(' ') + source@);
            },
            CspDirectiveSources::List(l) => {
                let ghost before = l@;
                l.push(source.to_owned());
                assert(l@.map_values(|s: String| s@) =~= before.map_values(|s: String| s@).push(source@));
            },
        }
    }
}

/// A Content-Security-Policy definition.
#[derive(Debug, Clone, PartialEq, Eq)]
pub enum Csp {
    /// The entire CSP policy in a single text string.
    Policy(String),
    /// An object mapping a directive with its sources values as a list of strings.
    DirectiveMap(HashMap<String, CspDirectiveSources>),
}

/// The possible values for the `dangerous_disable_asset_csp_modification` config option.
#[derive(Debug, Clone, PartialEq, Eq)]
pub enum DisabledCspModificationKind {
    /// If `true`, disables all CSP modification; `false` lets the CSP be controlled.
    Flag(bool),
    /// Disables the given list of CSP directives modifications.
    List(Vec<String>),
}

impl Default for DisabledCspModificationKind {
    fn default() -> (r: Self)
        ensures
            r == DisabledCspModificationKind::Flag(false),
    {
        DisabledCspModificationKind::Flag(false)
    }
}

/// Security configuration.
#[derive(Debug, Clone, PartialEq, Eq)]
pub struct SecurityConfig {
    /// The Content Security Policy injected on all HTML files of the built application.
    pub csp: Option<Csp>,
    /// The Content Security Policy injected on all HTML files in development.
    pub dev_csp: Option<Csp>,
    /// Freeze the `Object.prototype` when using the custom protocol.
    pub freeze_prototype: bool,
    /// Disables the injected CSP sources, entirely or for the listed directives.
    pub dangerous_disable_asset_csp_modification: DisabledCspModificationKind,
    /// Allow external domains to send commands.
    pub dangerous_remote_domain_ipc_access: Vec<RemoteDomainAccessScope>,
    /// Whether custom protocols use `http://<scheme>.localhost` instead of `https://<scheme>.localhost` on Windows.
    pub dangerous_use_http_scheme: bool,
}

} // verus!
