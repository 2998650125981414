//! First-boot setup: authentication, onboarding, the default board, and
//! the hand-over of the credentials to Authelia.

use vstd::prelude::*;
use crate::board::Board;
use crate::branding::BrandingConfig;
use crate::error::AdapterError;
use crate::homarr::{HomarrClient, OnboardingStep, branded};
use crate::http::{Body, Payload, Request};
use crate::onboarding::{StepKind, kind_of, step_kind};
use crate::state::State;

verus! {

/// The stages of setup, in their order.
#[derive(Debug, Clone, Copy, PartialEq, Eq, Structural)]
pub enum SetupStage {
    /// The API key is acquired.
    Authenticate,
    /// The dashboard is asked which step of onboarding it is at.
    CheckOnboarding,
    /// Onboarding is gone through.
    Onboard,
    /// The administrator logs in.
    Login,
    /// The default board is found or created, branded and made the home
    /// board.
    DefaultBoard,
    /// The credentials are handed to Authelia.
    Authelia,
    /// Setup is recorded as done and the state is written out.
    Complete,
}

/// What has been found out while setup ran.
#[derive(Debug, Clone, Copy, PartialEq, Eq, Structural)]
pub struct SetupFacts {
    /// Whether the dashboard reported the end of onboarding when asked.
    pub onboarding_finished: bool,
    /// Whether the credentials were handed to Authelia already.
    pub authelia_synced: bool,
}

/// The stage that follows `stage`; none after the last.
pub open spec fn stage_after(stage: SetupStage, facts: SetupFacts) -> Option<SetupStage> {
    match stage {
        SetupStage::Authenticate => Some(SetupStage::CheckOnboarding),
        SetupStage::CheckOnboarding => if facts.onboarding_finished {
            Some(SetupStage::Login)
        } else {
            Some(SetupStage::Onboard)
        },
        SetupStage::Onboard => Some(SetupStage::Login),
        SetupStage::Login => Some(SetupStage::DefaultBoard),
        SetupStage::DefaultBoard => if facts.authelia_synced {
            Some(SetupStage::Complete)
        } else {
            Some(SetupStage::Authelia)
        },
        SetupStage::Authelia => Some(SetupStage::Complete),
        SetupStage::Complete => None,
    }
}

/// Run first-boot setup: says which stage comes after `stage`.
///
/// Onboarding is gone through only where the dashboard has not finished it.
/// The credentials are handed to Authelia only where that has not been done.
/// A stage that fails ends setup; this function is asked only after a stage
/// that went through.
pub fn run_setup(stage: SetupStage, facts: SetupFacts) -> (next: Option<SetupStage>)
    ensures
        next == stage_after(stage, facts),
{
    match stage {
        SetupStage::Authenticate => Some(SetupStage::CheckOnboarding),
        SetupStage::CheckOnboarding => if facts.onboarding_finished {
            Some(SetupStage::Login)
        } else {
            Some(SetupStage::Onboard)
        },
        SetupStage::Onboard => Some(SetupStage::Login),
        SetupStage::Login => Some(SetupStage::DefaultBoard),
        SetupStage::DefaultBoard => if facts.authelia_synced {
            Some(SetupStage::Complete)
        } else {
            Some(SetupStage::Authelia)
        },
        SetupStage::Authelia => Some(SetupStage::Complete),
        SetupStage::Complete => None,
    }
}

/// What setup knows at its start, and once the dashboard has named its step
/// of onboarding.
pub fn setup_facts(state: &State, step: &OnboardingStep) -> (facts: SetupFacts)
    ensures
        facts.onboarding_finished == (kind_of(step.current@) == StepKind::Finish),
        facts.authelia_synced == state.authelia_sync_completed,
{
    SetupFacts {
        onboarding_finished: step_kind(step.current.as_str()) == StepKind::Finish,
        authelia_synced: state.authelia_sync_completed,
    }
}

/// Whether a cycle has to run setup first.
pub fn needs_setup(state: &State) -> (r: bool)
    ensures
        r == !state.first_boot_completed,
{
    !state.first_boot_completed
}

/// Records that setup is done. The state is then to be written out.
pub fn complete_setup(state: &mut State)
    ensures
        final(state).first_boot_completed,
        final(state).version == old(state).version,
        final(state).authelia_sync_completed == old(state).authelia_sync_completed,
        final(state).api_key == old(state).api_key,
        final(state).removed_apps_by_board@ == old(state).removed_apps_by_board@,
        final(state).last_sync == old(state).last_sync,
        final(state).discovered_apps@ == old(state).discovered_apps@,
{
    state.first_boot_completed = true;
}

/// What is to be done about the default board.
#[derive(Debug)]
pub enum BoardSetup {
    /// The board exists: it is branded, made the home board, and the colour
    /// scheme is set, in this order.
    Reuse { board_id: String, requests: Vec<Request> },
    /// The board does not exist: it is created first.
    Create { request: Request },
}

impl HomarrClient {
    /// Whether `requests` are those that finish the default board
    /// `board_id`: its branding, its choice as home board, and the default
    /// colour scheme, in this order.
    pub open spec fn finishes_board(self, requests: Seq<Request>, board_id: Seq<char>, branding: BrandingConfig) -> bool {
        &&& requests.len() == 3
        &&& self.posts(requests[0], "/api/trpc/board.savePartialBoardSettings"@)
        &&& requests[0].body matches Body::Json(Payload::BoardSettings(settings)) && branded(
            settings,
            board_id,
            branding,
        )
        &&& self.posts(requests[1], "/api/trpc/board.setHomeBoard"@)
        &&& requests[1].body matches Body::Json(Payload::BoardId { id }) && id@ == board_id
        &&& self.posts(requests[2], "/api/trpc/user.changeColorScheme"@)
        &&& requests[2].body matches Body::Json(Payload::ColorScheme { color_scheme })
            && color_scheme@ == branding.theme.default_color_scheme@
    }

    /// The requests that finish the default board `board_id`.
    pub fn finish_default_board(&self, board_id: &str, branding: &BrandingConfig) -> (requests: Vec<
        Request,
    >)
        ensures
            self.finishes_board(requests@, board_id@, *branding),
    {
        let mut requests: Vec<Request> = Vec::new();
        requests.push(self.save_board_branding_settings_request(board_id, branding));
        requests.push(self.set_home_board_request(board_id));
        requests.push(
            self.set_color_scheme_request(branding.theme.default_color_scheme.as_str()),
        );
        requests
    }

    /// Set up the default board, given what the search for it came to.
    ///
    /// A board that was found is reused under its id. Where the search
    /// failed, for whatever reason, the board is created.
    pub fn setup_default_board(&self, branding: &BrandingConfig, lookup: Result<Board, AdapterError>) -> (r:
        BoardSetup)
        ensures
            match lookup {
                Ok(board) => {
                    &&& r matches BoardSetup::Reuse { board_id, requests }
                    &&& board_id == board.id
                    &&& self.finishes_board(requests@, board.id@, *branding)
                },
                Err(_) => {
                    &&& r matches BoardSetup::Create { request }
                    &&& self.posts(request, "/api/trpc/board.createBoard"@)
                    &&& request.body == Body::Json(
                        Payload::CreateBoard {
                            name: branding.board.name,
                            column_count: branding.board.column_count,
                            is_public: branding.board.is_public,
                        },
                    )
                },
            },
    {
        match lookup {
            Ok(board) => {
                let requests = self.finish_default_board(board.id.as_str(), branding);
                BoardSetup::Reuse { board_id: board.id, requests }
            },
            Err(_) => BoardSetup::Create { request: self.create_board_request(branding) },
        }
    }

    /// Ensure we're logged in: the request that logs the administrator in.
    pub fn ensure_logged_in(&self, csrf_token: &str, branding: &BrandingConfig) -> (r: Request)
        ensures
            self.posts(r, "/api/auth/callback/credentials"@),
            r.body matches Body::Form(fields) && fields@.len() == 3 && fields@[0].0@ == "csrfToken"@
                && fields@[0].1@ == csrf_token@ && fields@[1].0@ == "name"@ && fields@[1].1
                == branding.credentials.admin_username && fields@[2].0@ == "password"@
                && fields@[2].1 == branding.credentials.admin_password,
    {
        self.login_request(csrf_token, branding)
    }
}

} // verus!
