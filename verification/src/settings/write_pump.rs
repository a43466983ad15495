//! The queue that writes settings images one at a time, coalescing the
//! images that arrive while a write is in flight and retaining the latest
//! failure for a retry.

use vstd::prelude::*;

use crate::settings::startup::PersistenceMode;
use crate::settings::store::{SettingsImageV1, SettingsSaveError};

verus! {

/// The number that orders the settings images handed to the pump.
#[derive(Clone, Copy, Debug, PartialEq, Eq, Hash, Structural)]
pub struct SettingsRevision(pub u64);

impl SettingsRevision {
    /// The revision number.
    pub fn get(self) -> (number: u64)
        ensures
            number == self.0,
    {
        self.0
    }
}

/// One write to perform: an image, the file it replaces and its revision.
#[derive(Debug)]
pub struct SettingsWriteRequest {
    revision: SettingsRevision,
    path: String,
    image: SettingsImageV1,
}

impl SettingsWriteRequest {
    pub closed spec fn revision_spec(&self) -> u64 {
        self.revision.0
    }

    pub closed spec fn path_spec(&self) -> Seq<char> {
        self.path@
    }

    pub closed spec fn image_spec(&self) -> SettingsImageV1 {
        self.image
    }

    /// The revision of the image to write.
    pub fn revision(&self) -> (revision: SettingsRevision)
        ensures
            revision.0 == self.revision_spec(),
    {
        self.revision
    }

    /// The settings file to replace.
    pub fn path(&self) -> (path: &str)
        ensures
            path@ == self.path_spec(),
    {
        self.path.as_str()
    }

    /// The image to write.
    pub fn image(&self) -> (image: &SettingsImageV1)
        ensures
            *image == self.image_spec(),
    {
        &self.image
    }

    /// The completion of this request with the outcome of the write.
    pub fn complete(self, result: Result<(), SettingsSaveError>) -> (completion:
        SettingsWriteCompletion)
        ensures
            completion.revision_spec() == self.revision_spec(),
            completion.image_spec() == self.image_spec(),
            completion.result_spec() == result,
    {
        SettingsWriteCompletion { revision: self.revision, image: self.image, result }
    }
}

/// A finished write: its revision, its image and its outcome.
#[derive(Debug)]
pub struct SettingsWriteCompletion {
    revision: SettingsRevision,
    image: SettingsImageV1,
    result: Result<(), SettingsSaveError>,
}

impl SettingsWriteCompletion {
    pub closed spec fn revision_spec(&self) -> u64 {
        self.revision.0
    }

    pub closed spec fn image_spec(&self) -> SettingsImageV1 {
        self.image
    }

    pub closed spec fn result_spec(&self) -> Result<(), SettingsSaveError> {
        self.result
    }
}

/// What happened to a queued image.
#[derive(Debug)]
pub enum SettingsQueueResult {
    Queued(SettingsRevision),
    /// Persistence is protected; the image is dropped.
    Protected(SettingsRevision),
}

/// The report on a finished write.
#[derive(Debug)]
pub struct SettingsWriteFinish {
    pub revision: SettingsRevision,
    /// Whether the write carried the newest image; only such a write is
    /// worth a notice.
    pub is_latest: bool,
    pub result: Result<(), SettingsSaveError>,
}

/// The writer of settings images.
#[derive(Debug)]
pub struct SettingsWritePump {
    path: String,
    mode: PersistenceMode,
    next_revision: u64,
    latest_revision: Option<SettingsRevision>,
    pending: Option<(SettingsRevision, SettingsImageV1)>,
    in_flight: Option<SettingsRevision>,
    failed: Option<(SettingsRevision, SettingsImageV1)>,
}

/// The abstract state of a [`SettingsWritePump`]; revisions as numbers.
pub struct PumpView {
    pub path: Seq<char>,
    pub mode: PersistenceMode,
    pub next_revision: u64,
    pub latest: Option<u64>,
    pub pending: Option<(u64, SettingsImageV1)>,
    pub in_flight: Option<u64>,
    pub failed: Option<(u64, SettingsImageV1)>,
}

/// Whether persistence is protected.
pub open spec fn is_protected(mode: PersistenceMode) -> bool {
    mode is ProtectedUnsupportedVersion
}

/// The pump after queuing `image`, and the revision it was given: the
/// newest image replaces any pending one and a retained failure is dropped;
/// a protected pump drops the image too.
pub open spec fn after_queue(v: PumpView, image: SettingsImageV1) -> PumpView {
    let revision = v.next_revision;
    PumpView {
        next_revision: (revision + 1) as u64,
        latest: Some(revision),
        pending: if is_protected(v.mode) {
            None
        } else {
            Some((revision, image))
        },
        failed: None,
        ..v
    }
}

/// The pump after [`SettingsWritePump::take_ready`]: the pending image goes
/// in flight, unless a write is in flight already.
pub open spec fn after_take_ready(v: PumpView) -> PumpView {
    if v.in_flight is None && v.pending is Some {
        PumpView { pending: None, in_flight: Some(v.pending.unwrap().0), ..v }
    } else {
        v
    }
}

/// The pump after a write of `revision` with `image` finished: the write
/// leaves flight, and a failed write of the newest image is retained.
pub open spec fn after_finish(
    v: PumpView,
    revision: u64,
    image: SettingsImageV1,
    failed: bool,
) -> PumpView {
    PumpView {
        in_flight: if v.in_flight == Some(revision) {
            None
        } else {
            v.in_flight
        },
        failed: if v.latest == Some(revision) && failed {
            Some((revision, image))
        } else {
            v.failed
        },
        ..v
    }
}

/// The pump after [`SettingsWritePump::retry_failed`]: a retained failure
/// is pending again under a new revision.
pub open spec fn after_retry(v: PumpView) -> PumpView {
    match v.failed {
        Some((_, image)) => PumpView {
            next_revision: (v.next_revision + 1) as u64,
            latest: Some(v.next_revision),
            pending: Some((v.next_revision, image)),
            failed: None,
            ..v
        },
        None => v,
    }
}

/// The pump after [`SettingsWritePump::discard_obsolete`]: pending and
/// failed images are dropped and a new revision makes any write in flight
/// obsolete.
pub open spec fn after_discard_obsolete(v: PumpView) -> PumpView {
    PumpView {
        next_revision: (v.next_revision + 1) as u64,
        latest: Some(v.next_revision),
        pending: None,
        failed: None,
        ..v
    }
}

/// Nothing pending, in flight or failed.
pub open spec fn settled(v: PumpView) -> bool {
    v.pending is None && v.in_flight is None && v.failed is None
}

impl View for SettingsWritePump {
    type V = PumpView;

    closed spec fn view(&self) -> PumpView {
        PumpView {
            path: self.path@,
            mode: self.mode,
            next_revision: self.next_revision,
            latest: match self.latest_revision {
                Some(r) => Some(r.0),
                None => None,
            },
            pending: match self.pending {
                Some((r, image)) => Some((r.0, image)),
                None => None,
            },
            in_flight: match self.in_flight {
                Some(r) => Some(r.0),
                None => None,
            },
            failed: match self.failed {
                Some((r, image)) => Some((r.0, image)),
                None => None,
            },
        }
    }
}

/// Every revision in use was allocated before, pending and failed images
/// carry the newest revision, a pending image is newer than the write in
/// flight, a retained failure stands alone (nothing pending, nothing in
/// flight), and a protected pump holds nothing to write.
pub open spec fn pump_well_formed(v: PumpView) -> bool {
    &&& v.next_revision >= 1
    &&& v.latest matches Some(r) ==> r < v.next_revision
    &&& v.in_flight matches Some(r) ==> r < v.next_revision
    &&& v.pending matches Some((r, _)) ==> v.latest == Some(r)
    &&& v.failed matches Some((r, _)) ==> v.latest == Some(r)
    &&& (v.in_flight is Some && v.pending is Some) ==> v.in_flight.unwrap() < v.pending.unwrap().0
    &&& v.failed is Some ==> v.pending is None && v.in_flight is None
    &&& is_protected(v.mode) ==> v.pending is None && v.in_flight is None && v.failed is None
}

impl SettingsWritePump {
    /// An idle pump for the settings file at `path`.
    pub fn new(path: String, mode: PersistenceMode) -> (pump: Self)
        ensures
            pump_well_formed(pump@),
            pump@ == (PumpView {
                path: path@,
                mode,
                next_revision: 1,
                latest: None,
                pending: None,
                in_flight: None,
                failed: None,
            }),
    {
        SettingsWritePump {
            path,
            mode,
            next_revision: 1,
            latest_revision: None,
            pending: None,
            in_flight: None,
            failed: None,
        }
    }

    fn allocate_revision(&mut self) -> (revision: SettingsRevision)
        requires
            old(self).next_revision < u64::MAX,
        ensures
            revision.0 == old(self).next_revision,
            final(self)@ == (PumpView { next_revision: (old(self)@.next_revision + 1) as u64, ..old(self)@ }),
    {
        let revision = SettingsRevision(self.next_revision);
        self.next_revision = self.next_revision + 1;
        revision
    }

    /// Queues `image` under a new revision.
    pub fn queue(&mut self, image: SettingsImageV1) -> (result: SettingsQueueResult)
        requires
            pump_well_formed(old(self)@),
            old(self)@.next_revision < u64::MAX,
        ensures
            pump_well_formed(final(self)@),
            final(self)@ == after_queue(old(self)@, image),
            if is_protected(old(self)@.mode) {
                result matches SettingsQueueResult::Protected(r) && r.0 == old(self)@.next_revision
            } else {
                result matches SettingsQueueResult::Queued(r) && r.0 == old(self)@.next_revision
            },
    {
        self.failed = None;
        let revision = self.allocate_revision();
        self.latest_revision = Some(revision);
        if matches!(self.mode, PersistenceMode::ProtectedUnsupportedVersion { .. }) {
            self.pending = None;
            return SettingsQueueResult::Protected(revision);
        }
        self.pending = Some((revision, image));
        SettingsQueueResult::Queued(revision)
    }

    /// The next write to perform: the pending image, unless a write is in
    /// flight.
    pub fn take_ready(&mut self) -> (request: Option<SettingsWriteRequest>)
        requires
            pump_well_formed(old(self)@),
        ensures
            pump_well_formed(final(self)@),
            final(self)@ == after_take_ready(old(self)@),
            request is Some <==> (old(self)@.in_flight is None && old(self)@.pending is Some),
            request matches Some(r) ==> {
                &&& r.revision_spec() == old(self)@.pending.unwrap().0
                &&& r.image_spec() == old(self)@.pending.unwrap().1
                &&& r.path_spec() == old(self)@.path
            },
    {
        if self.in_flight.is_some() {
            return None;
        }
        let (revision, image) = match self.pending.take() {
            Some(pending) => pending,
            None => return None,
        };
        self.in_flight = Some(revision);
        Some(SettingsWriteRequest { revision, path: self.path.clone(), image })
    }

    /// Records a finished write.
    pub fn finish(&mut self, completion: SettingsWriteCompletion) -> (finish: SettingsWriteFinish)
        requires
            pump_well_formed(old(self)@),
            old(self)@.in_flight == Some(completion.revision_spec()),
        ensures
            pump_well_formed(final(self)@),
            final(self)@ == after_finish(
                old(self)@,
                completion.revision_spec(),
                completion.image_spec(),
                completion.result_spec() is Err,
            ),
            finish.revision.0 == completion.revision_spec(),
            finish.is_latest == (old(self)@.latest == Some(completion.revision_spec())),
            finish.result == completion.result_spec(),
            final(self)@.in_flight is None,
            final(self)@.failed is Some <==> (finish.is_latest && completion.result_spec() is Err),
    {
        if self.in_flight == Some(completion.revision) {
            self.in_flight = None;
        }
        let is_latest = self.latest_revision == Some(completion.revision);
        let failed = completion.result.is_err();
        if is_latest && failed {
            self.failed = Some((completion.revision, completion.image));
        }
        SettingsWriteFinish { revision: completion.revision, is_latest, result: completion.result }
    }

    /// Makes a retained failure pending again under a new revision.
    pub fn retry_failed(&mut self) -> (revision: Option<SettingsRevision>)
        requires
            pump_well_formed(old(self)@),
            old(self)@.next_revision < u64::MAX,
        ensures
            pump_well_formed(final(self)@),
            final(self)@ == after_retry(old(self)@),
            revision is Some <==> old(self)@.failed is Some,
            revision matches Some(r) ==> r.0 == old(self)@.next_revision,
    {
        let (_, image) = match self.failed.take() {
            Some(failed) => failed,
            None => return None,
        };
        let revision = self.allocate_revision();
        self.latest_revision = Some(revision);
        self.pending = Some((revision, image));
        Some(revision)
    }

    /// Drops a retained failure; whether there was one.
    pub fn discard_failed(&mut self) -> (discarded: bool)
        requires
            pump_well_formed(old(self)@),
        ensures
            pump_well_formed(final(self)@),
            final(self)@ == (PumpView { failed: None, ..old(self)@ }),
            discarded == old(self)@.failed is Some,
    {
        self.failed.take().is_some()
    }

    /// Drops every pending and failed image, and makes a write in flight
    /// obsolete.
    pub fn discard_obsolete(&mut self)
        requires
            pump_well_formed(old(self)@),
            old(self)@.next_revision < u64::MAX,
        ensures
            pump_well_formed(final(self)@),
            final(self)@ == after_discard_obsolete(old(self)@),
    {
        self.pending = None;
        self.failed = None;
        let revision = self.allocate_revision();
        self.latest_revision = Some(revision);
    }

    /// Whether nothing is pending, in flight or failed.
    pub fn is_settled(&self) -> (is_settled: bool)
        ensures
            is_settled == settled(self@),
    {
        self.pending.is_none() && self.in_flight.is_none() && self.failed.is_none()
    }

    /// Whether a failed write is retained.
    pub fn has_failed(&self) -> (has_failed: bool)
        ensures
            has_failed == self@.failed is Some,
    {
        self.failed.is_some()
    }

    /// The persistence mode.
    pub fn mode(&self) -> (mode: &PersistenceMode)
        ensures
            *mode == self@.mode,
    {
        &self.mode
    }

    /// The newest revision handed out.
    pub fn latest_revision_for_test(&self) -> (latest: Option<SettingsRevision>)
        ensures
            match latest {
                Some(r) => self@.latest == Some(r.0),
                None => self@.latest is None,
            },
    {
        self.latest_revision
    }
}

/// A protected pump never produces a write: nothing is pending after any
/// image is queued, so nothing becomes ready.
pub proof fn law_protected_pump_never_writes(v: PumpView, image: SettingsImageV1)
    requires
        pump_well_formed(v),
        is_protected(v.mode),
    ensures
        after_queue(v, image).pending is None,
        after_take_ready(after_queue(v, image)) == after_queue(v, image),
        settled(v),
        settled(after_queue(v, image)),
{
}

/// At most one write is in flight: while one is, no other becomes ready.
pub proof fn law_one_write_in_flight(v: PumpView)
    requires
        v.in_flight is Some,
    ensures
        after_take_ready(v) == v,
{
}

/// Images queued while a write is in flight coalesce: only the newest one
/// stays pending, under the newest revision.
pub proof fn law_queued_images_coalesce(
    v: PumpView,
    first: SettingsImageV1,
    second: SettingsImageV1,
)
    requires
        pump_well_formed(v),
        !is_protected(v.mode),
        v.next_revision < u64::MAX - 1,
    ensures
        after_queue(after_queue(v, first), second).pending == Some(
            ((v.next_revision + 1) as u64, second),
        ),
        after_queue(after_queue(v, first), second).latest == Some((v.next_revision + 1) as u64),
{
}

/// Revisions only grow: every operation that hands out a revision hands out
/// one above every revision in use.
pub proof fn law_revisions_increase(v: PumpView, image: SettingsImageV1)
    requires
        pump_well_formed(v),
        v.next_revision < u64::MAX,
    ensures
        after_queue(v, image).next_revision > v.next_revision,
        v.latest matches Some(r) ==> after_queue(v, image).latest.unwrap() > r,
        v.in_flight matches Some(r) ==> after_queue(v, image).latest.unwrap() > r,
        after_discard_obsolete(v).latest.unwrap() == v.next_revision,
        v.failed is Some ==> after_retry(v).latest == Some(v.next_revision),
{
}

/// Queuing takes a fresh revision above every revision in use, makes it the
/// newest, and leaves no retained failure; an enabled pump holds the image
/// as the one pending write, replacing any older one, and a protected pump
/// holds nothing.
pub proof fn law_queue_takes_a_fresh_revision(v: PumpView, image: SettingsImageV1)
    requires
        pump_well_formed(v),
        v.next_revision < u64::MAX,
    ensures
        ({
            let r = v.next_revision;
            let after = after_queue(v, image);
            &&& v.latest matches Some(l) ==> l < r
            &&& v.in_flight matches Some(f) ==> f < r
            &&& v.pending matches Some((p, _)) ==> p < r
            &&& v.failed matches Some((f, _)) ==> f < r
            &&& after.latest == Some(r)
            &&& after.next_revision > r
            &&& after.failed is None
            &&& after.in_flight == v.in_flight
            &&& !is_protected(v.mode) ==> after.pending == Some((r, image))
            &&& is_protected(v.mode) ==> after.pending is None
            &&& pump_well_formed(after)
        }),
{
}

/// A failed write of the newest image is retained, and retrying it makes
/// the same image pending under a newer revision.
pub proof fn law_latest_failure_is_retried(v: PumpView, image: SettingsImageV1)
    requires
        pump_well_formed(v),
        v.in_flight is Some,
        v.latest == v.in_flight,
        v.next_revision < u64::MAX,
    ensures
        ({
            let failed = after_finish(v, v.in_flight.unwrap(), image, true);
            let retried = after_retry(failed);
            &&& failed.failed == Some((v.in_flight.unwrap(), image))
            &&& failed.in_flight is None
            &&& retried.pending == Some((v.next_revision, image))
            &&& v.next_revision > v.in_flight.unwrap()
        }),
{
}

/// A write of an image that a newer one superseded never leaves a failure
/// behind, and a write that finished leaves nothing in flight.
pub proof fn law_obsolete_write_leaves_no_failure(
    v: PumpView,
    revision: u64,
    image: SettingsImageV1,
    failed: bool,
)
    requires
        v.in_flight == Some(revision),
        v.latest != Some(revision),
    ensures
        after_finish(v, revision, image, failed).failed == v.failed,
        after_finish(v, revision, image, failed).in_flight is None,
{
}

} // verus!
