//! The scope of remote access: which remote origins may reach the host, from which windows, and
//! which plugins they may call there.

use vstd::prelude::*;
use crate::text::texts;
use crate::url::{PageUrl, PageUrlView};

verus! {

/// One grant of remote access: a domain, the windows it may be loaded in, and the
/// plugins it may call from there.
#[derive(Debug)]
pub struct RemoteDomainAccessScope {
    scheme: Option<String>,
    domain: String,
    windows: Vec<String>,
    plugins: Vec<String>,
}

/// A grant as a value of the model.
pub struct RemoteAccess {
    /// The scheme that the origin must have; any scheme where this is `None`.
    pub scheme: Option<Seq<char>>,
    /// The domain that the origin must have.
    pub domain: Seq<char>,
    /// The labels of the windows that the grant is for.
    pub windows: Seq<Seq<char>>,
    /// The names of the plugins that the grant opens.
    pub plugins: Seq<Seq<char>>,
}

impl View for RemoteDomainAccessScope {
    type V = RemoteAccess;

    closed spec fn view(&self) -> RemoteAccess {
        RemoteAccess {
            scheme: match self.scheme {
                Some(s) => Some(s@),
                None => None,
            },
            domain: self.domain@,
            windows: texts(self.windows@),
            plugins: texts(self.plugins@),
        }
    }
}

/// What the scope decides for one remote origin in one window.
#[derive(Debug)]
pub enum ScopeDecision {
    /// Access is granted, to the plugins named here.
    Allowed(Vec<String>),
    /// Access is refused. The flags say whether any grant names the window, and
    /// whether any grant names the origin's domain.
    Denied { matches_window: bool, matches_domain: bool },
}

/// A decision as a value of the model.
pub enum ScopeDecisionView {
    Allowed(Set<Seq<char>>),
    Denied { matches_window: bool, matches_domain: bool },
}

impl View for ScopeDecision {
    type V = ScopeDecisionView;

    open spec fn view(&self) -> ScopeDecisionView {
        match self {
            ScopeDecision::Allowed(plugins) => ScopeDecisionView::Allowed(
                texts(plugins@).to_set(),
            ),
            ScopeDecision::Denied { matches_window, matches_domain } => ScopeDecisionView::Denied {
                matches_window: *matches_window,
                matches_domain: *matches_domain,
            },
        }
    }
}

/// Whether the grant is for the window `label`.
pub open spec fn matches_window(grant: RemoteAccess, label: Seq<char>) -> bool {
    grant.windows.contains(label)
}

/// Whether the grant is for the origin of `url`: the domain is the grant's, and so is
/// the scheme where the grant names one.
pub open spec fn matches_domain(grant: RemoteAccess, url: PageUrlView) -> bool {
    &&& grant.scheme matches Some(scheme) ==> scheme == url.scheme
    &&& url.domain == Some(grant.domain)
}

/// Whether the grant opens the host to `url` in the window `label`.
pub open spec fn grants(grant: RemoteAccess, label: Seq<char>, url: PageUrlView) -> bool {
    matches_window(grant, label) && matches_domain(grant, url)
}

/// The first grant of the list that opens the host to `url` in the window `label`.
pub open spec fn first_grant(grants_list: Seq<RemoteAccess>, label: Seq<char>, url: PageUrlView)
    -> Option<RemoteAccess>
    decreases grants_list.len(),
{
    if grants_list.len() == 0 {
        None
    } else if grants(grants_list[0], label, url) {
        Some(grants_list[0])
    } else {
        first_grant(grants_list.drop_first(), label, url)
    }
}

/// What the scope decides for `url` in the window `label`: the plugins of the first
/// grant that fits both, and a refusal where no grant fits both.
pub open spec fn decide(grants_list: Seq<RemoteAccess>, label: Seq<char>, url: PageUrlView)
    -> ScopeDecisionView {
    match first_grant(grants_list, label, url) {
        Some(grant) => ScopeDecisionView::Allowed(grant.plugins.to_set()),
        None => ScopeDecisionView::Denied {
            matches_window: exists|i: int|
                0 <= i < grants_list.len() && matches_window(#[trigger] grants_list[i], label),
            matches_domain: exists|i: int|
                0 <= i < grants_list.len() && matches_domain(#[trigger] grants_list[i], url),
        },
    }
}

/// The first fitting grant is the one at the least fitting index; there is none
/// exactly where no grant fits.
pub proof fn lemma_first_grant(grants_list: Seq<RemoteAccess>, label: Seq<char>, url: PageUrlView)
    ensures
        first_grant(grants_list, label, url) is None <==> forall|i: int|
            0 <= i < grants_list.len() ==> !grants(#[trigger] grants_list[i], label, url),
        forall|i: int|
            0 <= i < grants_list.len() && grants(grants_list[i], label, url) && (forall|j: int|
                0 <= j < i ==> !grants(#[trigger] grants_list[j], label, url)) ==> first_grant(
                grants_list,
                label,
                url,
            ) == Some(#[trigger] grants_list[i]),
    decreases grants_list.len(),
{
    if grants_list.len() == 0 {
    } else if grants(grants_list[0], label, url) {
        assert forall|i: int|
            0 <= i < grants_list.len() && grants(grants_list[i], label, url) && (forall|j: int|
                0 <= j < i ==> !grants(#[trigger] grants_list[j], label, url)) implies first_grant(
            grants_list,
            label,
            url,
        ) == Some(#[trigger] grants_list[i]) by {
            if i > 0 {
                assert(!grants(grants_list[0], label, url));
            }
        }
    } else {
        let rest = grants_list.drop_first();
        lemma_first_grant(rest, label, url);
        assert forall|i: int| 0 <= i < rest.len() implies #[trigger] rest[i] == grants_list[i
            + 1] by {}
        if first_grant(rest, label, url) is None {
            assert forall|i: int| 0 <= i < grants_list.len() implies !grants(
                #[trigger] grants_list[i],
                label,
                url,
            ) by {
                if i > 0 {
                    assert(rest[i - 1] == grants_list[i]);
                }
            }
        } else {
            if forall|i: int|
                0 <= i < grants_list.len() ==> !grants(#[trigger] grants_list[i], label, url) {
                assert forall|i: int| 0 <= i < rest.len() implies !grants(
                    #[trigger] rest[i],
                    label,
                    url,
                ) by {
                    assert(rest[i] == grants_list[i + 1]);
                }
            }
        }
        assert forall|i: int|
            0 <= i < grants_list.len() && grants(grants_list[i], label, url) && (forall|j: int|
                0 <= j < i ==> !grants(#[trigger] grants_list[j], label, url)) implies first_grant(
            grants_list,
            label,
            url,
        ) == Some(#[trigger] grants_list[i]) by {
            assert(i > 0);
            assert(rest[i - 1] == grants_list[i]);
            assert forall|j: int| 0 <= j < i - 1 implies !grants(
                #[trigger] rest[j],
                label,
                url,
            ) by {
                assert(rest[j] == grants_list[j + 1]);
            }
        }
    }
}

/// The scope fails closed: without any grant every remote origin is refused, and no
/// flag is set.
pub proof fn lemma_no_grant_denies(label: Seq<char>, url: PageUrlView)
    ensures
        decide(Seq::<RemoteAccess>::empty(), label, url) == (ScopeDecisionView::Denied {
            matches_window: false,
            matches_domain: false,
        }),
{
}

/// Where no grant names the window, access is refused and the window flag is down.
pub proof fn lemma_unknown_window_denied(
    grants_list: Seq<RemoteAccess>,
    label: Seq<char>,
    url: PageUrlView,
)
    requires
        forall|i: int|
            0 <= i < grants_list.len() ==> !matches_window(#[trigger] grants_list[i], label),
    ensures
        decide(grants_list, label, url) matches ScopeDecisionView::Denied {
            matches_window,
            ..
        } && !matches_window,
{
    lemma_first_grant(grants_list, label, url);
}

/// Where a grant names the window but none names the origin's domain, access is
/// refused with the window flag up and the domain flag down.
pub proof fn lemma_unknown_domain_denied(
    grants_list: Seq<RemoteAccess>,
    label: Seq<char>,
    url: PageUrlView,
)
    requires
        exists|i: int|
            0 <= i < grants_list.len() && matches_window(#[trigger] grants_list[i], label),
        forall|i: int|
            0 <= i < grants_list.len() ==> !matches_domain(#[trigger] grants_list[i], url),
    ensures
        decide(grants_list, label, url) == (ScopeDecisionView::Denied {
            matches_window: true,
            matches_domain: false,
        }),
{
    lemma_first_grant(grants_list, label, url);
}

/// Access is granted exactly where some grant fits the window and the origin.
pub proof fn lemma_allowed_iff_granted(
    grants_list: Seq<RemoteAccess>,
    label: Seq<char>,
    url: PageUrlView,
)
    ensures
        decide(grants_list, label, url) is Allowed <==> exists|i: int|
            0 <= i < grants_list.len() && grants(#[trigger] grants_list[i], label, url),
{
    lemma_first_grant(grants_list, label, url);
}

/// Whether `text` is among `list`.
pub fn contains_text(list: &Vec<String>, text: &str) -> (found: bool)
    ensures
        found == texts(list@).contains(text@),
{
    let wanted = text.to_owned();
    let mut i: usize = 0;
    while i < list.len()
        invariant
            i <= list.len(),
            wanted@ == text@,
            forall|j: int| 0 <= j < i ==> texts(list@)[j] != text@,
        decreases list.len() - i,
    {
        if list[i] == wanted {
            assert(texts(list@)[i as int] == text@);
            return true;
        }
        i += 1;
    }
    false
}

/// A copy of a list of texts.
pub fn clone_texts(list: &Vec<String>) -> (copy: Vec<String>)
    ensures
        texts(copy@) == texts(list@),
{
    let mut copy: Vec<String> = Vec::new();
    let mut i: usize = 0;
    while i < list.len()
        invariant
            i <= list.len(),
            copy.len() == i,
            forall|j: int| 0 <= j < i ==> copy[j]@ == list[j]@,
        decreases list.len() - i,
    {
        copy.push(list[i].clone());
        i += 1;
    }
    assert(texts(copy@) =~= texts(list@));
    copy
}

impl RemoteDomainAccessScope {
    /// A grant for `domain`, as yet for no window and no plugin, and for any scheme.
    pub fn new(domain: String) -> (grant: Self)
        ensures
            grant@ == (RemoteAccess {
                scheme: None,
                domain: domain@,
                windows: Seq::empty(),
                plugins: Seq::empty(),
            }),
    {
        let grant = RemoteDomainAccessScope {
            scheme: None,
            domain,
            windows: Vec::new(),
            plugins: Vec::new(),
        };
        assert(grant@.windows =~= Seq::empty());
        assert(grant@.plugins =~= Seq::empty());
        grant
    }

    /// Narrows the grant to origins of this scheme.
    pub fn allow_on_scheme(self, scheme: String) -> (grant: Self)
        ensures
            grant@ == (RemoteAccess { scheme: Some(scheme@), ..self@ }),
    {
        RemoteDomainAccessScope {
            scheme: Some(scheme),
            domain: self.domain,
            windows: self.windows,
            plugins: self.plugins,
        }
    }

    /// Extends the grant to the window `window`.
    pub fn add_window(self, window: String) -> (grant: Self)
        ensures
            grant@ == (RemoteAccess { windows: self@.windows.push(window@), ..self@ }),
    {
        let mut windows = self.windows;
        windows.push(window);
        let grant = RemoteDomainAccessScope {
            scheme: self.scheme,
            domain: self.domain,
            windows,
            plugins: self.plugins,
        };
        assert(grant@.windows =~= self@.windows.push(window@));
        grant
    }

    /// Opens the plugin `plugin` to the grant.
    pub fn add_plugin(self, plugin: String) -> (grant: Self)
        ensures
            grant@ == (RemoteAccess { plugins: self@.plugins.push(plugin@), ..self@ }),
    {
        let mut plugins = self.plugins;
        plugins.push(plugin);
        let grant = RemoteDomainAccessScope {
            scheme: self.scheme,
            domain: self.domain,
            windows: self.windows,
            plugins,
        };
        assert(grant@.plugins =~= self@.plugins.push(plugin@));
        grant
    }

    /// The domain that the grant is for.
    pub fn domain(&self) -> (domain: &str)
        ensures
            domain@ == self@.domain,
    {
        self.domain.as_str()
    }

    /// The windows that the grant is for.
    pub fn windows(&self) -> (windows: &Vec<String>)
        ensures
            texts(windows@) == self@.windows,
    {
        &self.windows
    }

    /// The plugins that the grant opens.
    pub fn plugins(&self) -> (plugins: &Vec<String>)
        ensures
            texts(plugins@) == self@.plugins,
    {
        &self.plugins
    }

    /// Whether the grant is for the window `label`.
    fn is_for_window(&self, label: &str) -> (fits: bool)
        ensures
            fits == matches_window(self@, label@),
    {
        contains_text(&self.windows, label)
    }

    /// Whether the grant is for the origin of `url`.
    fn is_for_domain(&self, url: &PageUrl) -> (fits: bool)
        ensures
            fits == matches_domain(self@, url@),
    {
        let scheme_fits = match &self.scheme {
            Some(scheme) => {
                let wanted = url.scheme().to_owned();
                *scheme == wanted
            },
            None => true,
        };
        let domain_fits = match url.domain() {
            Some(domain) => {
                let wanted = domain.to_owned();
                self.domain == wanted
            },
            None => false,
        };
        scheme_fits && domain_fits
    }
}

/// The grants of remote access that the application was configured with.
#[derive(Debug)]
pub struct IpcScope {
    remote_access: Vec<RemoteDomainAccessScope>,
}

impl View for IpcScope {
    type V = Seq<RemoteAccess>;

    closed spec fn view(&self) -> Seq<RemoteAccess> {
        self.remote_access@.map_values(|grant: RemoteDomainAccessScope| grant@)
    }
}

impl IpcScope {
    /// A scope without any grant: every remote origin is refused.
    pub fn new() -> (scope: Self)
        ensures
            scope@ == Seq::<RemoteAccess>::empty(),
    {
        let scope = IpcScope { remote_access: Vec::new() };
        assert(scope@ =~= Seq::<RemoteAccess>::empty());
        scope
    }

    /// Adds a grant behind those that are there.
    pub fn configure_remote_access(&mut self, access: RemoteDomainAccessScope)
        ensures
            final(self)@ == old(self)@.push(access@),
    {
        self.remote_access.push(access);
        assert(self@ =~= old(self)@.push(access@));
    }

    /// Decides whether the origin of `url`, loaded in the window `label`, may reach the
    /// host, and which plugins it may call.
    pub fn remote_access_for(&self, label: &str, url: &PageUrl) -> (decision: ScopeDecision)
        ensures
            decision@ == decide(self@, label@, url@),
    {
        let mut found_window = false;
        let mut found_domain = false;
        let mut granted: Option<usize> = None;
        let mut i: usize = 0;
        while i < self.remote_access.len()
            invariant
                i <= self.remote_access.len(),
                self@.len() == self.remote_access.len(),
                found_window <==> exists|j: int|
                    0 <= j < i && matches_window(#[trigger] self@[j], label@),
                found_domain <==> exists|j: int|
                    0 <= j < i && matches_domain(#[trigger] self@[j], url@),
                granted is None ==> forall|j: int|
                    0 <= j < i ==> !grants(#[trigger] self@[j], label@, url@),
                granted matches Some(g) ==> g < i && grants(self@[g as int], label@, url@)
                    && forall|j: int| 0 <= j < g ==> !grants(#[trigger] self@[j], label@, url@),
            decreases self.remote_access.len() - i,
        {
            let grant = &self.remote_access[i];
            assert(self@[i as int] == grant@);
            let for_window = grant.is_for_window(label);
            let for_domain = grant.is_for_domain(url);
            if for_window {
                found_window = true;
            }
            if for_domain {
                found_domain = true;
            }
            if for_window && for_domain && granted.is_none() {
                granted = Some(i);
            }
            i += 1;
        }
        proof {
            lemma_first_grant(self@, label@, url@);
        }
        match granted {
            Some(g) => {
                assert(self@[g as int] == self.remote_access[g as int]@);
                ScopeDecision::Allowed(clone_texts(&self.remote_access[g].plugins))
            },
            None => ScopeDecision::Denied {
                matches_window: found_window,
                matches_domain: found_domain,
            },
        }
    }
}

} // verus!
