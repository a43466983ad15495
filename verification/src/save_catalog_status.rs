//! The name catalog of the save editor: one load per game folder, kept
//! while the save editor is hidden and brought back when the same folder is
//! shown again.

use vstd::prelude::*;

use crate::path_text::{paths_equal, root_matches, roots_match, same_path};

verus! {

/// The number of a catalog load request.
#[derive(Clone, Copy, Debug, PartialEq, Eq, Hash, Structural)]
pub struct SaveCatalogRequestID(pub u64);

impl SaveCatalogRequestID {
    /// The request with number `value`.
    pub fn from_value(value: u64) -> (id: Self)
        ensures
            id.0 == value,
    {
        SaveCatalogRequestID(value)
    }

    /// The request number.
    pub fn get(self) -> (value: u64)
        ensures
            value == self.0,
    {
        self.0
    }
}

/// A catalog load: the request and the game folder it loads.
#[derive(Debug)]
pub struct SaveCatalogKey {
    request: SaveCatalogRequestID,
    root: String,
}

/// The abstract [`SaveCatalogKey`].
pub struct CatalogKeyView {
    pub request: u64,
    pub root: Seq<char>,
}

/// Whether two keys name the same request of the same folder.
pub open spec fn keys_match(a: CatalogKeyView, b: CatalogKeyView) -> bool {
    a.request == b.request && same_path(a.root, b.root)
}

impl View for SaveCatalogKey {
    type V = CatalogKeyView;

    closed spec fn view(&self) -> CatalogKeyView {
        CatalogKeyView { request: self.request.0, root: self.root@ }
    }
}

impl SaveCatalogKey {
    /// The load of `root` for `request`.
    pub fn new(request: SaveCatalogRequestID, root: &str) -> (key: Self)
        ensures
            key@ == (CatalogKeyView { request: request.0, root: root@ }),
    {
        SaveCatalogKey { request, root: root.to_owned() }
    }

    /// The request.
    pub fn request(&self) -> (request: SaveCatalogRequestID)
        ensures
            request.0 == self@.request,
    {
        self.request
    }

    /// The game folder.
    pub fn root(&self) -> (root: &str)
        ensures
            root@ == self@.root,
    {
        self.root.as_str()
    }

    /// Whether two keys name the same request of the same folder.
    pub fn same(&self, other: &SaveCatalogKey) -> (same: bool)
        ensures
            same == keys_match(self@, other@),
    {
        self.request.0 == other.request.0 && paths_equal(self.root.as_str(), other.root.as_str())
    }

    fn duplicate(&self) -> (copy: Self)
        ensures
            copy@ == self@,
    {
        SaveCatalogKey { request: self.request, root: self.root.clone() }
    }
}

/// What the save editor knows of its catalog: no folder configured, no load
/// in sight, a load under way, its dictionary with the number of issues
/// found, or its failure.
#[derive(Debug)]
pub enum SaveCatalogStatus<D, E> {
    NotConfigured,
    Dormant,
    Loading { key: SaveCatalogKey },
    Ready { key: SaveCatalogKey, dictionary: D, issue_count: usize },
    Failed { key: SaveCatalogKey, error: E },
}

/// The abstract [`SaveCatalogStatus`].
pub enum CatalogStatusView<D, E> {
    NotConfigured,
    Dormant,
    Loading { key: CatalogKeyView },
    Ready { key: CatalogKeyView, dictionary: D, issue_count: usize },
    Failed { key: CatalogKeyView, error: E },
}

impl<D, E> View for SaveCatalogStatus<D, E> {
    type V = CatalogStatusView<D, E>;

    open spec fn view(&self) -> CatalogStatusView<D, E> {
        match self {
            SaveCatalogStatus::NotConfigured => CatalogStatusView::NotConfigured,
            SaveCatalogStatus::Dormant => CatalogStatusView::Dormant,
            SaveCatalogStatus::Loading { key } => CatalogStatusView::Loading { key: key@ },
            SaveCatalogStatus::Ready { key, dictionary, issue_count } => CatalogStatusView::Ready {
                key: key@,
                dictionary: *dictionary,
                issue_count: *issue_count,
            },
            SaveCatalogStatus::Failed { key, error } => CatalogStatusView::Failed {
                key: key@,
                error: *error,
            },
        }
    }
}

/// The key of a status that has one.
pub open spec fn status_key<D, E>(status: CatalogStatusView<D, E>) -> Option<CatalogKeyView> {
    match status {
        CatalogStatusView::Loading { key } => Some(key),
        CatalogStatusView::Ready { key, .. } => Some(key),
        CatalogStatusView::Failed { key, .. } => Some(key),
        _ => None,
    }
}

/// Whether a status belongs to a load of `root`.
pub open spec fn status_has_root_spec<D, E>(status: CatalogStatusView<D, E>, root: Seq<char>) -> bool {
    status_key(status) matches Some(key) && same_path(key.root, root)
}

/// Whether a status is the load `key`, under way.
pub open spec fn status_loading<D, E>(status: CatalogStatusView<D, E>, key: CatalogKeyView) -> bool {
    status matches CatalogStatusView::Loading { key: current } && keys_match(current, key)
}

fn status_has_root<D, E>(status: &SaveCatalogStatus<D, E>, root: &String) -> (has: bool)
    ensures
        has == status_has_root_spec(status@, root@),
{
    match status {
        SaveCatalogStatus::Loading { key } => paths_equal(key.root.as_str(), root.as_str()),
        SaveCatalogStatus::Ready { key, .. } => paths_equal(key.root.as_str(), root.as_str()),
        SaveCatalogStatus::Failed { key, .. } => paths_equal(key.root.as_str(), root.as_str()),
        _ => false,
    }
}

fn is_loading<D, E>(status: &SaveCatalogStatus<D, E>, key: &SaveCatalogKey) -> (loading: bool)
    ensures
        loading == status_loading(status@, key@),
{
    match status {
        SaveCatalogStatus::Loading { key: current } => current.same(key),
        _ => false,
    }
}

/// The catalog of the save editor: what is shown, what a hidden editor
/// retained, and the game folder it is for.
pub struct SaveCatalogSession<D, E> {
    status: SaveCatalogStatus<D, E>,
    retained: Option<SaveCatalogStatus<D, E>>,
    root: Option<String>,
}

/// The abstract [`SaveCatalogSession`].
pub struct SessionView<D, E> {
    pub status: CatalogStatusView<D, E>,
    pub retained: Option<CatalogStatusView<D, E>>,
    pub root: Option<Seq<char>>,
}

impl<D, E> View for SaveCatalogSession<D, E> {
    type V = SessionView<D, E>;

    closed spec fn view(&self) -> SessionView<D, E> {
        SessionView {
            status: self.status@,
            retained: match self.retained {
                Some(status) => Some(status@),
                None => None,
            },
            root: match self.root {
                Some(root) => Some(root@),
                None => None,
            },
        }
    }
}

/// The session after a load of `key` began: it is for the key's folder and
/// shows the load, and nothing is retained.
pub open spec fn after_begin<D, E>(key: CatalogKeyView) -> SessionView<D, E> {
    SessionView {
        status: CatalogStatusView::Loading { key },
        retained: None,
        root: Some(key.root),
    }
}

/// Whether showing the editor for `root` shows a catalog: the session is
/// for `root`, and it shows a load of `root` or retained one.
pub open spec fn activate_accepted<D, E>(s: SessionView<D, E>, root: Seq<char>) -> bool {
    &&& root_matches(s.root, Some(root))
    &&& match s.status {
        CatalogStatusView::Dormant => s.retained matches Some(r) && status_has_root_spec(r, root),
        CatalogStatusView::NotConfigured => false,
        _ => status_has_root_spec(s.status, root),
    }
}

/// The session after the editor was shown for `root`: a retained load of
/// `root` is shown again.
pub open spec fn after_activate<D, E>(s: SessionView<D, E>, root: Seq<char>) -> SessionView<D, E> {
    if root_matches(s.root, Some(root)) && s.status is Dormant && (s.retained matches Some(r)
        && status_has_root_spec(r, root)) {
        SessionView { status: s.retained.unwrap(), retained: None, ..s }
    } else {
        s
    }
}

/// The session after the editor was hidden while the folder is `root`: a
/// new folder drops everything; the same folder keeps a load, finished or
/// not, retained.
pub open spec fn after_dormant<D, E>(s: SessionView<D, E>, root: Option<Seq<char>>) -> SessionView<
    D,
    E,
> {
    if !root_matches(s.root, root) {
        SessionView { status: CatalogStatusView::Dormant, retained: None, root }
    } else {
        match s.status {
            CatalogStatusView::NotConfigured => SessionView {
                status: CatalogStatusView::Dormant,
                ..s
            },
            CatalogStatusView::Dormant => s,
            _ => SessionView { status: CatalogStatusView::Dormant, retained: Some(s.status), ..s },
        }
    }
}

/// Whether a result of the load `key` is accepted: the session is for its
/// folder and that very load is shown or retained.
pub open spec fn finish_accepted<D, E>(s: SessionView<D, E>, key: CatalogKeyView) -> bool {
    &&& root_matches(s.root, Some(key.root))
    &&& (status_loading(s.status, key) || (s.retained matches Some(r) && status_loading(r, key)))
}

/// The session after the result `done` of the load `key` arrived: it takes
/// the place of the load, shown or retained.
pub open spec fn after_finish<D, E>(
    s: SessionView<D, E>,
    key: CatalogKeyView,
    done: CatalogStatusView<D, E>,
) -> SessionView<D, E> {
    if !finish_accepted(s, key) {
        s
    } else if status_loading(s.status, key) {
        SessionView { status: done, ..s }
    } else {
        SessionView { retained: Some(done), ..s }
    }
}

impl<D, E> SaveCatalogSession<D, E> {
    /// A session for no folder, with nothing in sight.
    pub fn new() -> (session: Self)
        ensures
            session@ == (SessionView::<D, E> {
                status: CatalogStatusView::Dormant,
                retained: None,
                root: None,
            }),
    {
        SaveCatalogSession { status: SaveCatalogStatus::Dormant, retained: None, root: None }
    }

    /// Begins the load `key`.
    pub fn begin(&mut self, key: SaveCatalogKey)
        ensures
            final(self)@ == after_begin::<D, E>(key@),
    {
        self.root = Some(key.root.clone());
        self.retained = None;
        self.status = SaveCatalogStatus::Loading { key };
    }

    /// Shows the editor for `root`. Returns whether a catalog of `root` is
    /// shown.
    pub fn activate(&mut self, root: &str) -> (shown: bool)
        ensures
            shown == activate_accepted(old(self)@, root@),
            final(self)@ == after_activate(old(self)@, root@),
    {
        let root = root.to_owned();
        let same_root = match &self.root {
            Some(current) => paths_equal(current.as_str(), root.as_str()),
            None => false,
        };
        if !same_root {
            return false;
        }
        match &self.status {
            SaveCatalogStatus::Dormant => {
                let retained_has_root = match &self.retained {
                    Some(status) => status_has_root(status, &root),
                    None => false,
                };
                if !retained_has_root {
                    return false;
                }
                match self.retained.take() {
                    Some(status) => {
                        self.status = status;
                    },
                    None => {},
                }
                true
            },
            SaveCatalogStatus::NotConfigured => false,
            status => status_has_root(status, &root),
        }
    }

    /// Hides the editor while the folder is `root`. Returns whether the
    /// folder changed, which drops everything.
    pub fn dormant(&mut self, root: Option<&str>) -> (changed: bool)
        ensures
            changed == !root_matches(
                old(self)@.root,
                match root {
                    Some(r) => Some(r@),
                    None => None,
                },
            ),
            final(self)@ == after_dormant(
                old(self)@,
                match root {
                    Some(r) => Some(r@),
                    None => None,
                },
            ),
    {
        let root: Option<String> = match root {
            Some(r) => Some(r.to_owned()),
            None => None,
        };
        let same_root = roots_match(&self.root, &root);
        if !same_root {
            self.root = root;
            self.retained = None;
            self.status = SaveCatalogStatus::Dormant;
            return true;
        }
        let mut status = SaveCatalogStatus::Dormant;
        std::mem::swap(&mut status, &mut self.status);
        match status {
            SaveCatalogStatus::NotConfigured => {},
            SaveCatalogStatus::Dormant => {},
            status => {
                self.retained = Some(status);
            },
        }
        false
    }

    /// Records that no game folder is configured.
    pub fn not_configured(&mut self)
        ensures
            final(self)@ == (SessionView::<D, E> {
                status: CatalogStatusView::NotConfigured,
                retained: None,
                root: None,
            }),
    {
        self.root = None;
        self.retained = None;
        self.status = SaveCatalogStatus::NotConfigured;
    }

    fn accepts(&self, key: &SaveCatalogKey) -> (accepted: bool)
        ensures
            accepted == finish_accepted(self@, key@),
    {
        let same_root = match &self.root {
            Some(current) => paths_equal(current.as_str(), key.root.as_str()),
            None => false,
        };
        if !same_root {
            return false;
        }
        let retained_loading = match &self.retained {
            Some(status) => is_loading(status, key),
            None => false,
        };
        is_loading(&self.status, key) || retained_loading
    }

    /// Records that the load `key` produced `dictionary` with `issue_count`
    /// issues. Returns whether it was accepted.
    pub fn finish_ready(&mut self, key: SaveCatalogKey, dictionary: D, issue_count: usize) -> (accepted: bool)
        ensures
            accepted == finish_accepted(old(self)@, key@),
            final(self)@ == after_finish(
                old(self)@,
                key@,
                CatalogStatusView::Ready { key: key@, dictionary, issue_count },
            ),
    {
        if !self.accepts(&key) {
            return false;
        }
        let shown = is_loading(&self.status, &key);
        let done = SaveCatalogStatus::Ready { key, dictionary, issue_count };
        if shown {
            self.status = done;
        } else {
            self.retained = Some(done);
        }
        true
    }

    /// Records that the load `key` failed with `error`. Returns whether it
    /// was accepted.
    pub fn finish_failed(&mut self, key: SaveCatalogKey, error: E) -> (accepted: bool)
        ensures
            accepted == finish_accepted(old(self)@, key@),
            final(self)@ == after_finish(
                old(self)@,
                key@,
                CatalogStatusView::Failed { key: key@, error },
            ),
    {
        if !self.accepts(&key) {
            return false;
        }
        let shown = is_loading(&self.status, &key);
        let done = SaveCatalogStatus::Failed { key, error };
        if shown {
            self.status = done;
        } else {
            self.retained = Some(done);
        }
        true
    }

    /// What is shown.
    pub fn status(&self) -> (status: &SaveCatalogStatus<D, E>)
        ensures
            status@ == self@.status,
    {
        &self.status
    }
}

/// What the save editor must do after its catalog was brought in line with
/// what is shown.
#[derive(Clone, Copy, Debug, PartialEq, Eq, Structural)]
pub enum SaveCatalogAction {
    /// No Crusaders save is shown; `folder_changed` tells whether the game
    /// folder changed, which makes every earlier load request stale.
    Hidden { folder_changed: bool },
    /// A save is shown but no game folder is configured.
    NotConfigured,
    /// The catalog of the folder is shown, loaded or on its way.
    Shown,
    /// A new load of the folder must begin.
    LoadNeeded,
}

/// The action [`SaveCatalogSession::reconcile`] reports.
pub open spec fn reconcile_action<D, E>(
    s: SessionView<D, E>,
    save_shown: bool,
    root: Option<Seq<char>>,
) -> SaveCatalogAction {
    if !save_shown {
        SaveCatalogAction::Hidden { folder_changed: !root_matches(s.root, root) }
    } else {
        match root {
            None => SaveCatalogAction::NotConfigured,
            Some(r) => if activate_accepted(s, r) {
                SaveCatalogAction::Shown
            } else {
                SaveCatalogAction::LoadNeeded
            },
        }
    }
}

/// The session after [`SaveCatalogSession::reconcile`].
pub open spec fn after_reconcile<D, E>(
    s: SessionView<D, E>,
    save_shown: bool,
    root: Option<Seq<char>>,
) -> SessionView<D, E> {
    if !save_shown {
        after_dormant(s, root)
    } else {
        match root {
            None => SessionView { status: CatalogStatusView::NotConfigured, retained: None, root: None },
            Some(r) => after_activate(s, r),
        }
    }
}

impl<D, E> SaveCatalogSession<D, E> {
    /// Brings the catalog in line with the editor: hidden when no Crusaders
    /// save is shown, not configured without a game folder, and otherwise
    /// the folder's catalog shown again or a new load asked for.
    pub fn reconcile(&mut self, save_shown: bool, root: Option<&str>) -> (action: SaveCatalogAction)
        ensures
            action == reconcile_action(
                old(self)@,
                save_shown,
                match root {
                    Some(r) => Some(r@),
                    None => None,
                },
            ),
            final(self)@ == after_reconcile(
                old(self)@,
                save_shown,
                match root {
                    Some(r) => Some(r@),
                    None => None,
                },
            ),
    {
        if !save_shown {
            let folder_changed = self.dormant(root);
            return SaveCatalogAction::Hidden { folder_changed };
        }
        match root {
            None => {
                self.not_configured();
                SaveCatalogAction::NotConfigured
            },
            Some(r) => if self.activate(r) {
                SaveCatalogAction::Shown
            } else {
                SaveCatalogAction::LoadNeeded
            },
        }
    }
}

impl<D, E> Default for SaveCatalogSession<D, E> {
    fn default() -> (session: Self)
        ensures
            session@ == (SessionView::<D, E> {
                status: CatalogStatusView::Dormant,
                retained: None,
                root: None,
            }),
    {
        SaveCatalogSession::new()
    }
}

/// A load's result is shown once the load that began it finishes.
pub proof fn law_finished_load_is_shown<D, E>(key: CatalogKeyView, done: CatalogStatusView<D, E>)
    ensures
        finish_accepted(after_begin::<D, E>(key), key),
        after_finish(after_begin::<D, E>(key), key, done).status == done,
{
}

/// A result is accepted only for the load, request and folder, that is
/// under way: a key of another request or folder is refused and changes
/// nothing.
pub proof fn law_only_the_loading_key_finishes<D, E>(
    key: CatalogKeyView,
    other: CatalogKeyView,
    done: CatalogStatusView<D, E>,
)
    requires
        !keys_match(key, other),
    ensures
        !finish_accepted(after_begin::<D, E>(key), other),
        after_finish(after_begin::<D, E>(key), other, done) == after_begin::<D, E>(key),
{
}

/// Hiding the editor and showing it again for the same folder brings back
/// the catalog it showed, loaded, failed or still loading.
pub proof fn law_hide_then_show_restores<D, E>(s: SessionView<D, E>, root: Seq<char>)
    requires
        s.root == Some(root),
        status_has_root_spec(s.status, root),
    ensures
        activate_accepted(after_dormant(s, Some(root)), root),
        after_activate(after_dormant(s, Some(root)), root) == (SessionView { retained: None, ..s }),
{
}

/// A load still under way while the editor is hidden completes into what
/// is shown when the editor comes back.
pub proof fn law_retained_load_completes<D, E>(
    key: CatalogKeyView,
    done: CatalogStatusView<D, E>,
)
    requires
        status_has_root_spec(done, key.root),
    ensures
        ({
            let hidden = after_dormant(after_begin::<D, E>(key), Some(key.root));
            let finished = after_finish(hidden, key, done);
            &&& finish_accepted(hidden, key)
            &&& activate_accepted(finished, key.root)
            &&& after_activate(finished, key.root).status == done
        }),
{
}

/// Another game folder drops every load of the old one: no result of it is
/// accepted afterwards.
pub proof fn law_folder_change_rejects_earlier_loads<D, E>(
    s: SessionView<D, E>,
    root: Option<Seq<char>>,
    key: CatalogKeyView,
)
    requires
        !root_matches(s.root, root),
    ensures
        !finish_accepted(after_dormant(s, root), key),
{
}

/// Once a load of a folder has begun, bringing the catalog in line again
/// for that folder shows it instead of starting another load; hiding and
/// showing the editor does not start one either.
pub proof fn law_no_second_load_for_a_folder<D, E>(key: CatalogKeyView)
    ensures
        reconcile_action(after_begin::<D, E>(key), true, Some(key.root))
            == SaveCatalogAction::Shown,
        ({
            let hidden = after_reconcile(after_begin::<D, E>(key), false, Some(key.root));
            reconcile_action(hidden, true, Some(key.root)) == SaveCatalogAction::Shown
        }),
{
}

} // verus!
