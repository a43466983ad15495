//! What the editor does around a settings write: the notice that follows
//! it, and the close request that a failure cancels.

use vstd::prelude::*;
use vstd::string::*;

use crate::notices::{
    after_begin, after_clear, after_complete, after_replace, Notice, NoticeCenter,
    NoticeCenterView, NoticeLevel, NoticeScope, NoticeSource, NoticeView,
};
use crate::settings::startup::PersistenceMode;
use crate::game::Game;
use crate::settings::store::{
    image_from_runtime, runtime_image, runtime_texts_valid, GamePaths, RecentFiles,
    SettingsImageError, SettingsImageV1, SettingsSaveError,
};
use crate::settings::write_pump::{
    after_discard_obsolete, after_finish, after_queue, pump_well_formed, PumpView,
    SettingsQueueResult, SettingsWriteCompletion, SettingsWritePump,
};
use crate::work_notices::{image_error_notice, image_error_text, protected_settings_notice, protected_summary};

verus! {

/// The request to close the window, which waits for settings writes to
/// settle; a failed write withdraws it.
#[derive(Clone, Copy, Debug, PartialEq, Eq, Structural)]
pub struct CloseRequest {
    pub pending: bool,
    pub armed: bool,
}

/// The messages of a save failure: what failed and where, then the
/// system's message.
pub open spec fn save_error_messages(error: SettingsSaveError) -> Seq<Seq<char>> {
    match error {
        SettingsSaveError::CreateParent { path, detail } => seq![
            "could not create settings directory "@ + path@,
            detail@,
        ],
        SettingsSaveError::CreateTemporary { directory, detail } => seq![
            "could not create a temporary settings file in "@ + directory@,
            detail@,
        ],
        SettingsSaveError::Serialize { detail } => seq![
            "could not serialize application settings"@,
            detail@,
        ],
        SettingsSaveError::Write { path, detail } => seq![
            "could not write settings for "@ + path@,
            detail@,
        ],
        SettingsSaveError::Flush { path, detail } => seq![
            "could not flush settings for "@ + path@,
            detail@,
        ],
        SettingsSaveError::Sync { path, detail } => seq![
            "could not synchronize settings for "@ + path@,
            detail@,
        ],
        SettingsSaveError::Persist { path, detail } => seq![
            "could not replace settings at "@ + path@,
            detail@,
        ],
    }
}

fn message_with(prefix: &str, text: &String) -> (message: String)
    ensures
        message@ == prefix@ + text@,
{
    let mut message = prefix.to_owned();
    message.append(text.as_str());
    message
}

/// The messages of `error`, outermost first.
pub fn save_error_chain(error: &SettingsSaveError) -> (chain: Vec<String>)
    ensures
        chain@.map_values(|message: String| message@) == save_error_messages(*error),
{
    let (first, detail) = match error {
        SettingsSaveError::CreateParent { path, detail } => (
            message_with("could not create settings directory ", path),
            detail,
        ),
        SettingsSaveError::CreateTemporary { directory, detail } => (
            message_with("could not create a temporary settings file in ", directory),
            detail,
        ),
        SettingsSaveError::Serialize { detail } => (
            "could not serialize application settings".to_owned(),
            detail,
        ),
        SettingsSaveError::Write { path, detail } => (
            message_with("could not write settings for ", path),
            detail,
        ),
        SettingsSaveError::Flush { path, detail } => (
            message_with("could not flush settings for ", path),
            detail,
        ),
        SettingsSaveError::Sync { path, detail } => (
            message_with("could not synchronize settings for ", path),
            detail,
        ),
        SettingsSaveError::Persist { path, detail } => (
            message_with("could not replace settings at ", path),
            detail,
        ),
    };
    let mut chain: Vec<String> = Vec::new();
    chain.push(first);
    chain.push(detail.clone());
    assert(chain@.map_values(|message: String| message@) =~= save_error_messages(*error));
    chain
}

/// The notice of a failed save of the settings.
pub open spec fn save_failure_view(error: SettingsSaveError) -> NoticeView {
    NoticeView {
        level: NoticeLevel::Error,
        scope: NoticeScope::Workspace,
        summary: "Could not save application settings"@,
        detail: crate::notices::joined(save_error_messages(error), "\nCaused by: "@),
    }
}

/// The error notice for a failed save of the settings.
pub fn save_failure_notice(error: &SettingsSaveError) -> (notice: Notice)
    ensures
        notice@ == save_failure_view(*error),
{
    let chain = save_error_chain(error);
    Notice::error("Could not save application settings", &chain)
}

/// The notice a queued settings image starts with: that it is being saved,
/// or, for a protected file, that it will not be.
pub open spec fn queued_notice_view(mode: PersistenceMode) -> NoticeView {
    match mode {
        PersistenceMode::Enabled => NoticeView {
            level: NoticeLevel::Info,
            scope: NoticeScope::Workspace,
            summary: "Saving application settings"@,
            detail: Seq::empty(),
        },
        PersistenceMode::ProtectedUnsupportedVersion { found } => NoticeView {
            level: NoticeLevel::Warning,
            scope: NoticeScope::Workspace,
            summary: protected_summary(found),
            detail: Seq::empty(),
        },
    }
}

/// The notice of a settings image that could not be prepared.
pub open spec fn image_failure_view(error: SettingsImageError) -> NoticeView {
    NoticeView {
        level: NoticeLevel::Error,
        scope: NoticeScope::Workspace,
        summary: "Could not prepare application settings"@,
        detail: image_error_text(error),
    }
}

/// What handing `image` to the pump does: an image that could not be
/// prepared makes any write in flight obsolete, withdraws a close request
/// and posts an error; a prepared image is queued and its notice posted
/// under its revision.
pub open spec fn schedule_effect(
    pump0: PumpView,
    pump1: PumpView,
    notices0: NoticeCenterView,
    notices1: NoticeCenterView,
    close0: CloseRequest,
    close1: CloseRequest,
    image: Result<SettingsImageV1, SettingsImageError>,
) -> bool {
    match image {
        Err(error) => {
            &&& pump1 == after_discard_obsolete(pump0)
            &&& close1 == CloseRequest { pending: false, armed: false }
            &&& exists|n: Notice|
                n@ == image_failure_view(error) && notices1 == after_replace(
                    notices0,
                    NoticeSource::SettingsWrite,
                    n,
                )
        },
        Ok(img) => {
            &&& pump1 == after_queue(pump0, img)
            &&& close1 == close0
            &&& exists|n: Notice|
                n@ == queued_notice_view(pump0.mode) && notices1 == after_begin(
                    notices0,
                    NoticeSource::SettingsWrite,
                    pump0.next_revision,
                    n,
                )
        },
    }
}

/// Hands a prepared settings image to the pump. Returns whether an image
/// was queued.
pub fn schedule_image(
    pump: &mut SettingsWritePump,
    notices: &mut NoticeCenter,
    close: &mut CloseRequest,
    image: Result<SettingsImageV1, SettingsImageError>,
) -> (scheduled: bool)
    requires
        pump_well_formed(old(pump)@),
        old(pump)@.next_revision < u64::MAX,
        old(notices).well_formed(),
        old(notices)@.next_identity < u64::MAX,
        old(notices)@.next_sequence < u64::MAX,
    ensures
        pump_well_formed(final(pump)@),
        final(notices).well_formed(),
        scheduled == image is Ok,
        schedule_effect(
            old(pump)@,
            final(pump)@,
            old(notices)@,
            final(notices)@,
            *old(close),
            *final(close),
            image,
        ),
{
    match image {
        Err(error) => {
            pump.discard_obsolete();
            close.pending = false;
            close.armed = false;
            let notice = image_error_notice(&error);
            let ghost shown = notice;
            let ghost before = notices@;
            notices.replace(NoticeSource::SettingsWrite, notice);
            assert(shown@ == image_failure_view(error));
            assert(notices@ == after_replace(before, NoticeSource::SettingsWrite, shown));
            false
        },
        Ok(img) => {
            let mode = *pump.mode();
            let ghost before = notices@;
            match pump.queue(img) {
                SettingsQueueResult::Queued(revision) => {
                    let notice = Notice::info("Saving application settings");
                    let ghost shown = notice;
                    notices.begin(NoticeSource::SettingsWrite, revision.get(), notice);
                    assert(shown@ == queued_notice_view(mode));
                    assert(notices@ == after_begin(before, NoticeSource::SettingsWrite, revision.0, shown));
                },
                SettingsQueueResult::Protected(revision) => {
                    let found = match mode {
                        PersistenceMode::ProtectedUnsupportedVersion { found } => found,
                        PersistenceMode::Enabled => 0,
                    };
                    let notice = protected_settings_notice(found);
                    let ghost shown = notice;
                    notices.begin(NoticeSource::SettingsWrite, revision.get(), notice);
                    assert(shown@ == queued_notice_view(mode));
                    assert(notices@ == after_begin(before, NoticeSource::SettingsWrite, revision.0, shown));
                },
            }
            true
        },
    }
}

/// Prepares the settings image of the runtime state (the active `game`,
/// the folders in `paths` and the `recent` files) and hands it to the pump.
/// Returns whether it could be prepared and was queued.
pub fn schedule_settings_write(
    pump: &mut SettingsWritePump,
    notices: &mut NoticeCenter,
    close: &mut CloseRequest,
    game: Game,
    paths: &GamePaths,
    recent: &RecentFiles,
) -> (scheduled: bool)
    requires
        pump_well_formed(old(pump)@),
        old(pump)@.next_revision < u64::MAX,
        old(notices).well_formed(),
        old(notices)@.next_identity < u64::MAX,
        old(notices)@.next_sequence < u64::MAX,
    ensures
        pump_well_formed(final(pump)@),
        final(notices).well_formed(),
        scheduled == runtime_texts_valid(*paths, *recent),
        exists|image: Result<SettingsImageV1, SettingsImageError>|
            runtime_image(image, game, *paths, *recent) && schedule_effect(
                old(pump)@,
                final(pump)@,
                old(notices)@,
                final(notices)@,
                *old(close),
                *final(close),
                image,
            ),
{
    let image = image_from_runtime(game, paths, recent);
    let ghost made = image;
    let scheduled = schedule_image(pump, notices, close, image);
    assert(runtime_image(made, game, *paths, *recent));
    scheduled
}

/// The notices after a finished write of revision `revision` that carried
/// the newest image: success ends the write's notice and the startup
/// warning, failure replaces the write's notice with the error `failure`.
pub open spec fn notices_after_latest(
    v: NoticeCenterView,
    revision: u64,
    failure: Option<Notice>,
) -> NoticeCenterView {
    match failure {
        None => after_clear(
            after_complete(v, NoticeSource::SettingsWrite, revision, None),
            NoticeSource::Startup,
        ),
        Some(n) => after_complete(v, NoticeSource::SettingsWrite, revision, Some(n)),
    }
}

/// Records a finished write. Only a write that carried the newest image
/// changes the notices: success ends its notice and the startup warning;
/// failure shows the error and withdraws a close request.
pub fn finish_write(
    pump: &mut SettingsWritePump,
    notices: &mut NoticeCenter,
    close: &mut CloseRequest,
    completion: SettingsWriteCompletion,
)
    requires
        pump_well_formed(old(pump)@),
        old(pump)@.in_flight == Some(completion.revision_spec()),
        old(notices).well_formed(),
        old(notices)@.next_sequence < u64::MAX,
    ensures
        pump_well_formed(final(pump)@),
        final(notices).well_formed(),
        final(pump)@ == after_finish(
            old(pump)@,
            completion.revision_spec(),
            completion.image_spec(),
            completion.result_spec() is Err,
        ),
        old(pump)@.latest != Some(completion.revision_spec()) ==> final(notices)@ == old(
            notices,
        )@ && *final(close) == *old(close),
        old(pump)@.latest == Some(completion.revision_spec()) && completion.result_spec() is Ok
            ==> final(notices)@ == notices_after_latest(
            old(notices)@,
            completion.revision_spec(),
            None,
        ),
        old(pump)@.latest == Some(completion.revision_spec()) && completion.result_spec() is Ok
            ==> *final(close) == *old(close),
        old(pump)@.latest == Some(completion.revision_spec()) ==> (completion.result_spec() matches Err(
            error,
        ) ==> exists|n: Notice|
            n@ == save_failure_view(error) && final(notices)@ == notices_after_latest(
                old(notices)@,
                completion.revision_spec(),
                Some(n),
            )),
        old(pump)@.latest == Some(completion.revision_spec()) && completion.result_spec() is Err
            ==> *final(close) == (CloseRequest { pending: false, armed: false }),
{
    let finish = pump.finish(completion);
    if !finish.is_latest {
        return;
    }
    match finish.result {
        Ok(()) => {
            notices.complete(NoticeSource::SettingsWrite, finish.revision.get(), None);
            notices.clear(NoticeSource::Startup);
        },
        Err(error) => {
            close.pending = false;
            close.armed = false;
            let notice = save_failure_notice(&error);
            let ghost shown = notice;
            let ghost before = notices@;
            notices.complete(NoticeSource::SettingsWrite, finish.revision.get(), Some(notice));
            assert(shown@ == save_failure_view(error));
            assert(notices@ == notices_after_latest(before, completion.revision_spec(), Some(shown)));
        },
    }
}

} // verus!
