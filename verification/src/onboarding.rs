//! Onboarding of a fresh dashboard.
//!
//! The dashboard names the step it is at; the adapter answers each step with
//! one request and asks again, until the dashboard reports `finish`.

use vstd::prelude::*;
use crate::branding::BrandingConfig;
use crate::homarr::{HomarrClient, OnboardingStep};
use crate::http::{Body, Payload, Request};
use crate::text::str_eq;

verus! {

/// The steps of onboarding that the adapter tells apart.
#[derive(Debug, Clone, Copy, PartialEq, Eq, Structural)]
pub enum StepKind {
    /// Onboarding is complete.
    Finish,
    /// Nothing has been done yet.
    Start,
    /// The administrator is to be created.
    User,
    /// The server settings are to be chosen.
    Settings,
    /// A step that the adapter has nothing to say to; it is passed over.
    Other,
}

/// The kind of the step named `name`.
pub open spec fn kind_of(name: Seq<char>) -> StepKind {
    if name == "finish"@ {
        StepKind::Finish
    } else if name == "start"@ {
        StepKind::Start
    } else if name == "user"@ {
        StepKind::User
    } else if name == "settings"@ {
        StepKind::Settings
    } else {
        StepKind::Other
    }
}

/// The kind of the step named `name`.
pub fn step_kind(name: &str) -> (k: StepKind)
    ensures
        k == kind_of(name@),
{
    if str_eq(name, "finish") {
        StepKind::Finish
    } else if str_eq(name, "start") {
        StepKind::Start
    } else if str_eq(name, "user") {
        StepKind::User
    } else if str_eq(name, "settings") {
        StepKind::Settings
    } else {
        StepKind::Other
    }
}

/// What the adapter does about a step of onboarding.
#[derive(Debug)]
pub enum OnboardingAction {
    /// Onboarding is complete; nothing is sent.
    Done,
    /// The dashboard is told to go to the next step.
    Advance(Request),
    /// The administrator is created.
    CreateUser(Request),
    /// The server settings are applied.
    ApplySettings(Request),
    /// The dashboard has been answered as often as the caller allows and
    /// still does not report the end; nothing is sent.
    Stuck,
}

impl HomarrClient {
    /// What `complete_onboarding` decides for a step of kind `kind`.
    pub open spec fn onboarding_action(
        self,
        branding: BrandingConfig,
        kind: StepKind,
        action: OnboardingAction,
    ) -> bool {
        match kind {
            StepKind::Finish => action is Done,
            StepKind::Start | StepKind::Other => {
                &&& action matches OnboardingAction::Advance(request)
                &&& self.posts(request, "/api/trpc/onboard.nextStep"@)
                &&& request.body == Body::Json(Payload::Nothing)
            },
            StepKind::User => {
                &&& action matches OnboardingAction::CreateUser(request)
                &&& self.posts(request, "/api/trpc/user.initUser"@)
                &&& request.body == Body::Json(
                    Payload::InitUser {
                        username: branding.credentials.admin_username,
                        password: branding.credentials.admin_password,
                        confirm_password: branding.credentials.admin_password,
                    },
                )
            },
            StepKind::Settings => {
                &&& action matches OnboardingAction::ApplySettings(request)
                &&& self.posts(request, "/api/trpc/serverSettings.initSettings"@)
                &&& request.body == Body::Json(
                    Payload::InitSettings {
                        analytics: branding.settings.analytics,
                        crawling: branding.settings.crawling,
                    },
                )
            },
        }
    }

    /// Decides what to do about the step that the dashboard reports.
    ///
    /// `finish` ends onboarding. `start` is answered by going on, `user` by
    /// creating the administrator, `settings` by applying the settings. Any
    /// other step is passed over, so that a dashboard with steps unknown to
    /// the adapter can still be set up.
    pub fn complete_onboarding(&self, branding: &BrandingConfig, step: &OnboardingStep) -> (action:
        OnboardingAction)
        ensures
            self.onboarding_action(*branding, kind_of(step.current@), action),
    {
        match step_kind(step.current.as_str()) {
            StepKind::Finish => OnboardingAction::Done,
            StepKind::Start => OnboardingAction::Advance(self.advance_onboarding_step_request()),
            StepKind::User => OnboardingAction::CreateUser(
                self.create_initial_user_request(branding),
            ),
            StepKind::Settings => OnboardingAction::ApplySettings(
                self.configure_settings_request(branding),
            ),
            StepKind::Other => OnboardingAction::Advance(self.advance_onboarding_step_request()),
        }
    }
}

/// The course of one onboarding: how many steps were answered, how many
/// may be, and whether the dashboard has reported the end.
#[derive(Debug, Clone, Copy, PartialEq, Eq, Structural)]
pub struct Onboarding {
    pub answered: u64,
    pub limit: u64,
    pub finished: bool,
}

impl Onboarding {
    /// An onboarding in which at most `limit` steps are answered.
    pub fn new(limit: u64) -> (o: Self)
        ensures
            o == (Onboarding { answered: 0, limit, finished: false }),
    {
        Onboarding { answered: 0, limit, finished: false }
    }

    /// Takes the step that the dashboard reports and decides what to do.
    ///
    /// Once the end was reported, nothing is sent any more, whatever is
    /// reported later. Before that a step is answered as
    /// `complete_onboarding` says, as long as fewer than `limit` steps were
    /// answered; after that the onboarding is stuck.
    pub fn next(&mut self, client: &HomarrClient, branding: &BrandingConfig, step: &OnboardingStep) -> (action:
        OnboardingAction)
        ensures
            final(self).limit == old(self).limit,
            if old(self).finished || kind_of(step.current@) == StepKind::Finish {
                &&& action is Done
                &&& final(self).finished
                &&& final(self).answered == old(self).answered
            } else if old(self).answered >= old(self).limit {
                &&& action is Stuck
                &&& *final(self) == *old(self)
            } else {
                &&& client.onboarding_action(*branding, kind_of(step.current@), action)
                &&& !final(self).finished
                &&& final(self).answered == old(self).answered + 1
            },
    {
        if self.finished {
            return OnboardingAction::Done;
        }
        let kind = step_kind(step.current.as_str());
        if kind == StepKind::Finish {
            self.finished = true;
            return OnboardingAction::Done;
        }
        if self.answered >= self.limit {
            return OnboardingAction::Stuck;
        }
        self.answered = self.answered + 1;
        client.complete_onboarding(branding, step)
    }
}

} // verus!
