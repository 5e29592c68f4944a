//! The state a front end keeps around its captures: the settings, the chosen
//! destination, the rewind choice, and whether a capture is in flight.
//!
//! At most one capture is in flight at a time. The start control is enabled
//! only while a destination is chosen and no capture is in flight, and
//! starting a capture while it is disabled is ruled out by the precondition of
//! [`Session::begin`].

use vstd::prelude::*;
use crate::builder::{CaptureRequest, RequestModel};
use crate::notice::{notification_of, notify, Notification};
use crate::outcome::{OutcomeModel, PipelineOutcome};
use crate::prefs::{Preferences, PreferencesModel};

verus! {

/// The state of a session, as mathematical data.
pub struct SessionModel {
    /// The settings, as they would be stored now but for the rewind choice.
    pub preferences: PreferencesModel,
    /// The destination of the next capture, once one has been chosen.
    pub destination: Option<Seq<char>>,
    /// Whether the next capture rewinds the tape first.
    pub rewind: bool,
    /// Whether a capture has begun and has not finished.
    pub in_flight: bool,
}

/// The session that starts from stored settings: no destination is chosen,
/// the rewind choice is the stored one, and nothing is in flight.
pub open spec fn opened(preferences: PreferencesModel) -> SessionModel {
    SessionModel {
        preferences,
        destination: None,
        rewind: preferences.rewind_first,
        in_flight: false,
    }
}

/// The session after `path` was chosen as destination: it is the destination
/// of the next capture, and it is remembered in the settings.
pub open spec fn chosen(session: SessionModel, path: Seq<char>) -> SessionModel {
    SessionModel {
        preferences: PreferencesModel { last_path: path, ..session.preferences },
        destination: Some(path),
        ..session
    }
}

/// The session after the rewind choice was set.
pub open spec fn toggled(session: SessionModel, rewind: bool) -> SessionModel {
    SessionModel { rewind, ..session }
}

/// Whether a capture may begin: a destination is chosen and no capture is in
/// flight.
pub open spec fn can_start(session: SessionModel) -> bool {
    session.destination is Some && !session.in_flight
}

/// The request that a capture begun now would serve.
pub open spec fn request_of(session: SessionModel) -> RequestModel
    recommends
        session.destination is Some,
{
    RequestModel { destination: session.destination->Some_0, rewind: session.rewind }
}

/// The session after a capture has begun.
pub open spec fn begun(session: SessionModel) -> SessionModel {
    SessionModel { in_flight: true, ..session }
}

/// The session after the capture in flight has finished.
pub open spec fn finished(session: SessionModel) -> SessionModel {
    SessionModel { in_flight: false, ..session }
}

/// The settings to store when the session ends: those of the session, with
/// the rewind choice as it stands.
pub open spec fn closing(session: SessionModel) -> PreferencesModel {
    PreferencesModel { rewind_first: session.rewind, ..session.preferences }
}

/// The state a front end keeps around its captures.
#[derive(Debug)]
pub struct Session {
    preferences: Preferences,
    destination: Option<String>,
    rewind: bool,
    in_flight: bool,
}

impl View for Session {
    type V = SessionModel;

    closed spec fn view(&self) -> SessionModel {
        SessionModel {
            preferences: self.preferences@,
            destination: match self.destination {
                Some(path) => Some(path@),
                None => None,
            },
            rewind: self.rewind,
            in_flight: self.in_flight,
        }
    }
}

impl Session {
    /// Starts a session from the settings of the last one.
    pub fn open(preferences: Preferences) -> (session: Session)
        ensures
            session@ == opened(preferences@),
    {
        let rewind = preferences.rewind_first;
        Session { preferences, destination: None, rewind, in_flight: false }
    }

    /// The path to offer when the user is asked for a destination: the one
    /// that was chosen last.
    pub fn suggested_path(&self) -> (path: &str)
        ensures
            path@ == self@.preferences.last_path,
    {
        self.preferences.last_path.as_str()
    }

    /// The destination of the next capture, once one has been chosen.
    pub fn destination(&self) -> (path: Option<&str>)
        ensures
            match path {
                Some(found) => self@.destination == Some(found@),
                None => self@.destination is None,
            },
    {
        match &self.destination {
            Some(path) => Some(path.as_str()),
            None => None,
        }
    }

    /// Whether the next capture rewinds the tape first.
    pub fn rewind(&self) -> (rewind: bool)
        ensures
            rewind == self@.rewind,
    {
        self.rewind
    }

    /// Whether a capture has begun and has not finished.
    pub fn in_flight(&self) -> (in_flight: bool)
        ensures
            in_flight == self@.in_flight,
    {
        self.in_flight
    }

    /// Whether the start control is enabled.
    pub fn start_enabled(&self) -> (enabled: bool)
        ensures
            enabled == can_start(self@),
    {
        self.destination.is_some() && !self.in_flight
    }

    /// Takes `path` as the destination of the next capture and remembers it
    /// in the settings.
    pub fn choose_destination(&mut self, path: String)
        ensures
            final(self)@ == chosen(old(self)@, path@),
    {
        self.preferences.last_path = path.clone();
        self.destination = Some(path);
    }

    /// Sets whether the next capture rewinds the tape first.
    pub fn set_rewind(&mut self, rewind: bool)
        ensures
            final(self)@ == toggled(old(self)@, rewind),
    {
        self.rewind = rewind;
    }

    /// Begins a capture and gives the request it serves. From here until
    /// [`Session::finish`] the start control is disabled.
    ///
    /// The caller has to make sure that the start control is enabled: a
    /// capture never begins without a destination or while another is in
    /// flight.
    pub fn begin(&mut self) -> (request: CaptureRequest)
        requires
            can_start(old(self)@),
        ensures
            final(self)@ == begun(old(self)@),
            request@ == request_of(old(self)@),
    {
        self.in_flight = true;
        let destination = self.destination.as_ref().unwrap().clone();
        CaptureRequest { destination, rewind: self.rewind }
    }

    /// Begins a capture if the start control is enabled, and otherwise does
    /// nothing and gives `None`.
    pub fn try_begin(&mut self) -> (request: Option<CaptureRequest>)
        ensures
            can_start(old(self)@) ==> final(self)@ == begun(old(self)@) && request is Some
                && request->Some_0@ == request_of(old(self)@),
            !can_start(old(self)@) ==> final(self)@ == old(self)@ && request is None,
    {
        if self.start_enabled() {
            Some(self.begin())
        } else {
            None
        }
    }

    /// Records that the capture in flight has finished with `outcome`, which
    /// enables the start control again whatever the outcome is, and gives the
    /// notification to show.
    pub fn finish(&mut self, outcome: &PipelineOutcome) -> (notice: Notification)
        ensures
            final(self)@ == finished(old(self)@),
            notice@ == notification_of(outcome@),
    {
        self.in_flight = false;
        notify(outcome)
    }

    /// Ends the session and gives the settings to store.
    pub fn close(self) -> (preferences: Preferences)
        ensures
            preferences@ == closing(self@),
    {
        let mut preferences = self.preferences;
        preferences.rewind_first = self.rewind;
        preferences
    }
}

/// At most one capture is in flight. Once a capture has begun, no other can
/// begin, whatever the user chooses or toggles meanwhile, until it has
/// finished; and once it has finished the next one can begin.
pub proof fn lemma_single_flight(session: SessionModel, path: Seq<char>, rewind: bool)
    requires
        can_start(session),
    ensures
        !can_start(begun(session)),
        !can_start(chosen(begun(session), path)),
        !can_start(toggled(begun(session), rewind)),
        can_start(finished(begun(session))),
        finished(begun(session)) == session,
{
}

/// While a capture is in flight the start control is disabled, and nothing
/// but the end of that capture enables it again.
pub proof fn lemma_in_flight_blocks_start(session: SessionModel, path: Seq<char>, rewind: bool)
    requires
        session.in_flight,
    ensures
        !can_start(session),
        !can_start(chosen(session, path)),
        !can_start(toggled(session, rewind)),
        !can_start(begun(session)),
        can_start(finished(session)) <==> session.destination is Some,
{
}

/// A new session cannot start a capture before a destination is chosen, and
/// can as soon as one is. The capture then goes to that destination, as it
/// was given, with the rewind choice of the settings unless it was changed.
pub proof fn lemma_first_capture(preferences: PreferencesModel, path: Seq<char>)
    ensures
        !can_start(opened(preferences)),
        can_start(chosen(opened(preferences), path)),
        request_of(chosen(opened(preferences), path)) == (RequestModel {
            destination: path,
            rewind: preferences.rewind_first,
        }),
{
}

/// The settings that a session stores hold the destination chosen last and
/// the rewind choice as it stood at the end; a session in which nothing was
/// chosen or changed stores the settings it was opened with.
pub proof fn lemma_settings_carried(preferences: PreferencesModel, path: Seq<char>, rewind: bool)
    ensures
        closing(opened(preferences)) == preferences,
        closing(chosen(opened(preferences), path)).last_path == path,
        closing(toggled(opened(preferences), rewind)).rewind_first == rewind,
        closing(finished(begun(chosen(opened(preferences), path)))) == closing(
            chosen(opened(preferences), path),
        ),
{
}

} // verus!
