use vstd::prelude::*;

use crate::clock::{is_utc_rfc3339, utc_now_rfc3339};
use crate::config::{resolve_location_config, EnvVar, LocationConfig};
use crate::error::{AdotError, ErrorModel};
use crate::geo::{
    decode_response, lemma_complete_payload_decodes, location_request_url, location_result_view,
    request_url_of, response_outcome, GeoField, LocationModel, LocationRecord,
};

verus! {

/// The collection that holds the location record.
pub const LOCATION_COLLECTION: &'static str = "location";

/// The one document of [`LOCATION_COLLECTION`]: the latest location.
pub const LATEST_DOCUMENT: &'static str = "latest";

/// Where a location refresh stands.
#[derive(Clone, Copy, Debug, PartialEq, Eq, Structural)]
pub enum RefreshPhase {
    /// Waiting for the best-effort removal of the previous record.
    Deleting,
    /// Waiting for the geolocation response.
    Fetching,
    /// Waiting for the new record to be written.
    Inserting,
    /// Done; the last action carried the outcome.
    Finished,
}

/// What the caller must do next for a location refresh.
#[derive(Debug, PartialEq, Eq)]
pub enum RefreshAction {
    /// Delete document [`LATEST_DOCUMENT`] of [`LOCATION_COLLECTION`]; its failure does not matter.
    DeletePrevious,
    /// Issue one GET request to `url`.
    Fetch { url: String },
    /// Write `record` as document [`LATEST_DOCUMENT`] of [`LOCATION_COLLECTION`].
    Insert { record: LocationRecord },
    /// Stop, reporting `outcome`.
    Finish { outcome: Result<LocationRecord, AdotError> },
}

pub ghost enum ActionModel {
    DeletePrevious,
    Fetch { url: Seq<char> },
    Insert { record: LocationModel },
    Finish { outcome: Result<LocationModel, ErrorModel> },
}

impl View for RefreshAction {
    type V = ActionModel;

    open spec fn view(&self) -> ActionModel {
        match self {
            RefreshAction::DeletePrevious => ActionModel::DeletePrevious,
            RefreshAction::Fetch { url } => ActionModel::Fetch { url: url@ },
            RefreshAction::Insert { record } => ActionModel::Insert { record: record@ },
            RefreshAction::Finish { outcome } => ActionModel::Finish { outcome: location_result_view(*outcome) },
        }
    }
}

/// What happened when the caller carried out the last action.
#[derive(Clone, Debug, PartialEq, Eq)]
pub enum RefreshEvent {
    /// The delete returned; `succeeded` is false when it failed or found nothing.
    DeleteCompleted { succeeded: bool },
    /// The geolocation service answered.
    FetchCompleted { status: u16, body: String },
    /// The geolocation request did not complete.
    FetchFailed { message: String },
    /// The store wrote the record and handed back `stored`.
    InsertCompleted { stored: LocationRecord },
    /// The store did not write the record.
    InsertFailed { message: String },
}

/// Whether `event` answers the action that a refresh in `phase` has asked for.
pub open spec fn accepts(phase: RefreshPhase, event: RefreshEvent) -> bool {
    match event {
        RefreshEvent::DeleteCompleted { .. } => phase == RefreshPhase::Deleting,
        RefreshEvent::FetchCompleted { .. } => phase == RefreshPhase::Fetching,
        RefreshEvent::FetchFailed { .. } => phase == RefreshPhase::Fetching,
        RefreshEvent::InsertCompleted { .. } => phase == RefreshPhase::Inserting,
        RefreshEvent::InsertFailed { .. } => phase == RefreshPhase::Inserting,
    }
}

/// The state of a refresh as the contracts see it.
pub ghost struct RefreshState {
    pub phase: RefreshPhase,
    pub observed_at: Seq<char>,
    pub token: Seq<char>,
}

/// One transition: the next phase and the action to carry out, for an event
/// that the phase accepts.
pub open spec fn next(s: RefreshState, event: RefreshEvent) -> (RefreshPhase, ActionModel) {
    match event {
        RefreshEvent::DeleteCompleted { .. } => (RefreshPhase::Fetching, ActionModel::Fetch { url: request_url_of(s.token) }),
        RefreshEvent::FetchCompleted { status, body } => match response_outcome(status, body@, s.observed_at) {
            Ok(record) => (RefreshPhase::Inserting, ActionModel::Insert { record }),
            Err(e) => (RefreshPhase::Finished, ActionModel::Finish { outcome: Err(e) }),
        },
        RefreshEvent::FetchFailed { message } => (
            RefreshPhase::Finished,
            ActionModel::Finish { outcome: Err(ErrorModel::Transport { message: message@ }) },
        ),
        RefreshEvent::InsertCompleted { stored } => (RefreshPhase::Finished, ActionModel::Finish { outcome: Ok(stored@) }),
        RefreshEvent::InsertFailed { message } => (
            RefreshPhase::Finished,
            ActionModel::Finish { outcome: Err(ErrorModel::Store { message: message@ }) },
        ),
    }
}

/// The actions that `events` draw from a refresh in state `s`, up to the
/// first event that the current phase does not accept.
pub open spec fn run(s: RefreshState, events: Seq<RefreshEvent>) -> Seq<ActionModel>
    decreases events.len(),
{
    if events.len() == 0 || !accepts(s.phase, events[0]) {
        Seq::empty()
    } else {
        let (phase, action) = next(s, events[0]);
        seq![action] + run(RefreshState { phase, ..s }, events.drop_first())
    }
}

/// The location workflow: remove the previous record (best effort), fetch the
/// current location, write it as the new latest record.
#[derive(Debug)]
pub struct LocationRefresh {
    pub phase: RefreshPhase,
    /// When the refresh began; the new record carries it.
    pub observed_at: String,
    pub config: LocationConfig,
}

impl View for LocationRefresh {
    type V = RefreshState;

    open spec fn view(&self) -> RefreshState {
        RefreshState { phase: self.phase, observed_at: self.observed_at@, token: self.config.geo_token@ }
    }
}

impl LocationRefresh {
    /// Resolves the configuration and, when it is complete, opens a refresh
    /// stamped `observed_at` whose first action is the removal of the previous
    /// record. A missing value fails before any action is asked for.
    pub fn start(
        observed_at: String,
        project_id: Option<String>,
        credentials_path: Option<String>,
        geo_token: Option<String>,
    ) -> (r: Result<(LocationRefresh, RefreshAction), AdotError>)
        ensures
            project_id is None ==> r is Err && r->Err_0@ == (ErrorModel::MissingConfig { var: EnvVar::ProjectId }),
            project_id is Some && credentials_path is None ==> r is Err
                && r->Err_0@ == (ErrorModel::MissingConfig { var: EnvVar::Credentials }),
            project_id is Some && credentials_path is Some && geo_token is None ==> r is Err
                && r->Err_0@ == (ErrorModel::MissingConfig { var: EnvVar::GeoToken }),
            project_id is Some && credentials_path is Some && geo_token is Some ==> r is Ok && ({
                let (m, a) = r->Ok_0;
                &&& m@ == (RefreshState { phase: RefreshPhase::Deleting, observed_at: observed_at@, token: geo_token->Some_0@ })
                &&& m.config.store.project_id@ == project_id->Some_0@
                &&& m.config.store.credentials_path@ == credentials_path->Some_0@
                &&& a@ == ActionModel::DeletePrevious
            }),
    {
        match resolve_location_config(project_id, credentials_path, geo_token) {
            Err(e) => Err(e),
            Ok(config) => Ok((LocationRefresh { phase: RefreshPhase::Deleting, observed_at, config }, RefreshAction::DeletePrevious)),
        }
    }

    /// As [`LocationRefresh::start`], stamped with the current UTC time.
    pub fn begin(project_id: Option<String>, credentials_path: Option<String>, geo_token: Option<String>) -> (r: Result<
        (LocationRefresh, RefreshAction),
        AdotError,
    >)
        ensures
            project_id is None ==> r is Err && r->Err_0@ == (ErrorModel::MissingConfig { var: EnvVar::ProjectId }),
            project_id is Some && credentials_path is None ==> r is Err
                && r->Err_0@ == (ErrorModel::MissingConfig { var: EnvVar::Credentials }),
            project_id is Some && credentials_path is Some && geo_token is None ==> r is Err
                && r->Err_0@ == (ErrorModel::MissingConfig { var: EnvVar::GeoToken }),
            project_id is Some && credentials_path is Some && geo_token is Some ==> r is Ok && ({
                let (m, a) = r->Ok_0;
                &&& m.phase == RefreshPhase::Deleting
                &&& is_utc_rfc3339(m.observed_at@)
                &&& m.config.geo_token@ == geo_token->Some_0@
                &&& m.config.store.project_id@ == project_id->Some_0@
                &&& m.config.store.credentials_path@ == credentials_path->Some_0@
                &&& a@ == ActionModel::DeletePrevious
            }),
    {
        let observed_at = utc_now_rfc3339();
        LocationRefresh::start(observed_at, project_id, credentials_path, geo_token)
    }

    /// Whether `event` answers the action that this refresh has asked for.
    pub fn accepts(&self, event: &RefreshEvent) -> (r: bool)
        ensures
            r == accepts(self.phase, *event),
    {
        match event {
            RefreshEvent::DeleteCompleted { .. } => self.phase == RefreshPhase::Deleting,
            RefreshEvent::FetchCompleted { .. } => self.phase == RefreshPhase::Fetching,
            RefreshEvent::FetchFailed { .. } => self.phase == RefreshPhase::Fetching,
            RefreshEvent::InsertCompleted { .. } => self.phase == RefreshPhase::Inserting,
            RefreshEvent::InsertFailed { .. } => self.phase == RefreshPhase::Inserting,
        }
    }

    /// Takes the result of the last action and returns the next one. A failed
    /// delete is no failure: the fetch follows all the same. A failed fetch or
    /// insert ends the refresh with that error and nothing is undone.
    pub fn step(&mut self, event: RefreshEvent) -> (r: RefreshAction)
        requires
            accepts(old(self).phase, event),
        ensures
            final(self).phase == next(old(self)@, event).0,
            r@ == next(old(self)@, event).1,
            final(self).observed_at == old(self).observed_at,
            final(self).config == old(self).config,
    {
        match event {
            RefreshEvent::DeleteCompleted { .. } => {
                self.phase = RefreshPhase::Fetching;
                RefreshAction::Fetch { url: location_request_url(self.config.geo_token.as_str()) }
            },
            RefreshEvent::FetchCompleted { status, body } => {
                match decode_response(status, body, self.observed_at.clone()) {
                    Ok(record) => {
                        self.phase = RefreshPhase::Inserting;
                        RefreshAction::Insert { record }
                    },
                    Err(e) => {
                        self.phase = RefreshPhase::Finished;
                        RefreshAction::Finish { outcome: Err(e) }
                    },
                }
            },
            RefreshEvent::FetchFailed { message } => {
                self.phase = RefreshPhase::Finished;
                RefreshAction::Finish { outcome: Err(AdotError::Transport { message }) }
            },
            RefreshEvent::InsertCompleted { stored } => {
                self.phase = RefreshPhase::Finished;
                RefreshAction::Finish { outcome: Ok(stored) }
            },
            RefreshEvent::InsertFailed { message } => {
                self.phase = RefreshPhase::Finished;
                RefreshAction::Finish { outcome: Err(AdotError::Store { message }) }
            },
        }
    }
}

/// Once finished, a refresh asks for nothing more, whatever is reported.
pub proof fn lemma_finished_is_final(s: RefreshState, events: Seq<RefreshEvent>)
    requires
        s.phase == RefreshPhase::Finished,
    ensures
        run(s, events) == Seq::<ActionModel>::empty(),
{
    if events.len() > 0 {
        assert(!accepts(s.phase, events[0]));
    }
}

/// The actions of a refresh come in the order delete, fetch, insert, finish,
/// cut short only by a finish: nothing is fetched before the delete has been
/// asked for, nothing is written before the fetch, and a delete that failed
/// still leads to the fetch.
pub proof fn lemma_refresh_action_order(observed_at: Seq<char>, token: Seq<char>, events: Seq<RefreshEvent>)
    ensures
        ({
            let t = seq![ActionModel::DeletePrevious] + run(
                RefreshState { phase: RefreshPhase::Deleting, observed_at, token },
                events,
            );
            &&& t.len() <= 4
            &&& t[0] is DeletePrevious
            &&& t.len() > 1 ==> t[1] is Fetch
            &&& t.len() > 2 ==> (t[2] is Insert || t[2] is Finish)
            &&& t.len() > 3 ==> (t[2] is Insert && t[3] is Finish)
            &&& (events.len() > 0 && events[0] is DeleteCompleted) ==> (t.len() > 1 && t[1] == ActionModel::Fetch {
                url: crate::geo::request_url_of(token),
            })
        }),
{
    let s0 = RefreshState { phase: RefreshPhase::Deleting, observed_at, token };
    if events.len() > 0 && accepts(s0.phase, events[0]) {
        let s1 = RefreshState { phase: next(s0, events[0]).0, ..s0 };
        let e1 = events.drop_first();
        assert(s1.phase == RefreshPhase::Fetching);
        if e1.len() > 0 && accepts(s1.phase, e1[0]) {
            let s2 = RefreshState { phase: next(s1, e1[0]).0, ..s1 };
            let e2 = e1.drop_first();
            if s2.phase == RefreshPhase::Inserting {
                assert(next(s1, e1[0]).1 is Insert);
                if e2.len() > 0 && accepts(s2.phase, e2[0]) {
                    let s3 = RefreshState { phase: next(s2, e2[0]).0, ..s2 };
                    lemma_finished_is_final(s3, e2.drop_first());
                    assert(run(s2, e2) =~= seq![next(s2, e2[0]).1]);
                } else {
                    assert(run(s2, e2) =~= Seq::<ActionModel>::empty());
                }
                assert(run(s1, e1) =~= seq![next(s1, e1[0]).1] + run(s2, e2));
            } else {
                assert(s2.phase == RefreshPhase::Finished);
                lemma_finished_is_final(s2, e2);
                assert(run(s1, e1) =~= seq![next(s1, e1[0]).1]);
            }
        } else {
            assert(run(s1, e1) =~= Seq::<ActionModel>::empty());
        }
        assert(run(s0, events) =~= seq![next(s0, events[0]).1] + run(s1, e1));
    } else {
        assert(run(s0, events) =~= Seq::<ActionModel>::empty());
    }
}

/// A fetch that fails, by transport, by status or by payload, ends the refresh
/// at once: the error is reported and no write follows.
pub proof fn lemma_failed_fetch_writes_nothing(s: RefreshState, events: Seq<RefreshEvent>)
    requires
        s.phase == RefreshPhase::Fetching,
        events.len() > 0,
        match events[0] {
            RefreshEvent::FetchCompleted { status, body } => response_outcome(status, body@, s.observed_at) is Err,
            RefreshEvent::FetchFailed { .. } => true,
            _ => false,
        },
    ensures
        run(s, events).len() == 1,
        run(s, events)[0] is Finish,
        run(s, events)[0]->Finish_outcome is Err,
{
    let s1 = RefreshState { phase: next(s, events[0]).0, ..s };
    lemma_finished_is_final(s1, events.drop_first());
    assert(run(s, events) =~= seq![next(s, events[0]).1]);
}

/// A successful response whose payload carries the four fields leads to the
/// write of a record holding exactly those strings, stamped with the time at
/// which the refresh began, before the fetch.
pub proof fn lemma_fetched_record_stamped_at_start(
    s: RefreshState,
    status: u16,
    body: String,
    city: Seq<char>,
    region: Seq<char>,
    country: Seq<char>,
    timezone: Seq<char>,
)
    requires
        s.phase == RefreshPhase::Fetching,
        is_utc_rfc3339(s.observed_at),
        crate::geo::is_success(status),
        crate::geo::json_str_member(body@, GeoField::City.spec_key()) == Some(Some(city)),
        crate::geo::json_str_member(body@, GeoField::Region.spec_key()) == Some(Some(region)),
        crate::geo::json_str_member(body@, GeoField::Country.spec_key()) == Some(Some(country)),
        crate::geo::json_str_member(body@, GeoField::Timezone.spec_key()) == Some(Some(timezone)),
    ensures
        ({
            let (phase, action) = next(s, RefreshEvent::FetchCompleted { status, body });
            &&& phase == RefreshPhase::Inserting
            &&& action == ActionModel::Insert {
                record: LocationModel { city, region, country, timezone, observed_at: s.observed_at },
            }
            &&& is_utc_rfc3339(action->Insert_record.observed_at)
        }),
{
    lemma_complete_payload_decodes(status, body@, s.observed_at, city, region, country, timezone);
}

} // verus!
