//! Status-bearing notifications projected onto the status bar: account
//! and reroute notices feed the bar, warnings surface as the dismissible
//! banner, and the displayed thread's settings re-sync the model label.

use crate::shell::effect_views;
use crate::shell::none;
use crate::shell::one;
use crate::shell::Effect;
use crate::shell::EffectView;
use crate::shell::SessionView;
use crate::shell::Shell;
use crate::shell::ShellView;
use crate::text::chars_of;
use crate::text::decimal;
use crate::text::has_prefix;
use crate::text::lowercase;
use crate::text::push_decimal;
use crate::text::push_str;
use crate::text::starts_with_str;
use crate::text::str_lowercase;
use vstd::prelude::*;

verus! {

/// The login badge of the status bar.
#[derive(Debug, Clone, PartialEq, Eq)]
pub enum AccountBadge {
    /// Signed in with an API key.
    ApiKey,
    /// Signed in with a ChatGPT account on `plan`.
    Chatgpt { email: Option<String>, plan: String },
    /// No account.
    SignedOut,
}

/// The abstract value of [`AccountBadge`].
pub ghost enum AccountBadgeView {
    ApiKey,
    Chatgpt { email: Option<Seq<char>>, plan: Seq<char> },
    SignedOut,
}

impl View for AccountBadge {
    type V = AccountBadgeView;

    open spec fn view(&self) -> AccountBadgeView {
        match self {
            AccountBadge::ApiKey => AccountBadgeView::ApiKey,
            AccountBadge::Chatgpt { email, plan } => AccountBadgeView::Chatgpt {
                email: crate::state::opt_view(*email),
                plan: plan@,
            },
            AccountBadge::SignedOut => AccountBadgeView::SignedOut,
        }
    }
}

/// How an account is signed in, as far as the badge tells apart.
#[derive(Debug, Clone, Copy, PartialEq, Eq, Structural)]
pub enum AuthKind {
    /// An API key.
    ApiKey,
    /// A ChatGPT login.
    Chatgpt,
    /// A mode without a human-facing identity (tokens, headers, agent
    /// identity, access tokens, cloud keys).
    Opaque,
}

/// One status-bearing notification, as plain fields.
#[derive(Debug, Clone)]
pub enum StatusNotice {
    /// `account/updated`; `plan` is the plan type's name, when reported.
    AccountUpdated { auth_mode: Option<AuthKind>, plan: Option<String> },
    /// `model/rerouted`.
    ModelRerouted { from_model: String, to_model: String },
    /// `model/verification`, with its number of entries.
    ModelVerification { entries: u64 },
    /// `warning`.
    Warning { message: String },
    /// `guardianWarning`.
    GuardianWarning { message: String },
    /// `configWarning`.
    ConfigWarning { summary: String, details: Option<String> },
    /// `thread/settings/updated` for one thread.
    ThreadSettingsUpdated { thread_id: String, model_provider: String, model: String },
    /// `modelProvider/authRecoveryStarted`.
    AuthRecoveryStarted { provider: String },
    /// `modelProvider/authRecoveryCompleted`.
    AuthRecoveryCompleted { provider: String },
    /// `deprecationNotice`.
    DeprecationNotice { summary: String },
    /// A guardian auto-review started.
    GuardianReviewStarted,
    /// A guardian auto-review completed.
    GuardianReviewCompleted,
    /// A strict guardian review is required.
    StrictReviewRequired,
}

/// The guardian's after-the-fact report of an automatic approval.
pub open spec fn automatic_approval_prefix() -> Seq<char> {
    "Automatic approval review approved ("@
}

/// The badge an `account/updated` projects, if any: no auth mode left
/// means signed out; a mode without a human-facing identity keeps the
/// prior answer.
pub open spec fn projected_account(auth_mode: Option<AuthKind>, plan: Option<Seq<char>>) -> Option<
    AccountBadgeView,
> {
    badge_of(
        auth_mode,
        match plan {
            Some(p) => str_lowercase(p),
            None => Seq::empty(),
        },
    )
}

/// The badge for `auth_mode`, a ChatGPT login showing the already
/// lowercased plan name `lowered_plan`.
pub open spec fn badge_of(auth_mode: Option<AuthKind>, lowered_plan: Seq<char>) -> Option<AccountBadgeView> {
    match auth_mode {
        Some(AuthKind::ApiKey) => Some(AccountBadgeView::ApiKey),
        Some(AuthKind::Chatgpt) => Some(AccountBadgeView::Chatgpt { email: None, plan: lowered_plan }),
        None => Some(AccountBadgeView::SignedOut),
        Some(AuthKind::Opaque) => None,
    }
}

/// The badge for `auth_mode` once the plan name has been lowercased.
pub fn account_badge(auth_mode: Option<AuthKind>, lowered_plan: String) -> (r: Option<AccountBadge>)
    ensures
        match r {
            Some(b) => Some(b@),
            None => None,
        } == badge_of(auth_mode, lowered_plan@),
{
    match auth_mode {
        Some(AuthKind::ApiKey) => Some(AccountBadge::ApiKey),
        Some(AuthKind::Chatgpt) => Some(AccountBadge::Chatgpt { email: None, plan: lowered_plan }),
        None => Some(AccountBadge::SignedOut),
        Some(AuthKind::Opaque) => None,
    }
}

impl ShellView {
    /// What one status-bearing notification does: the effects on the
    /// status bar and banner, and (for the displayed thread's settings)
    /// the binding it records.
    pub open spec fn on_status_notice(self, notice: StatusNotice) -> (ShellView, Seq<EffectView>) {
        match notice {
            StatusNotice::AccountUpdated { auth_mode, plan } => (
                self,
                match projected_account(auth_mode, crate::state::opt_view(plan)) {
                    Some(b) => seq![EffectView::SetAccount(b)],
                    None => seq![],
                },
            ),
            StatusNotice::ModelRerouted { from_model, to_model } => (
                self,
                seq![EffectView::ShowNotice("model rerouted: "@ + from_model@ + " -> "@ + to_model@)],
            ),
            StatusNotice::ModelVerification { entries } => (
                self,
                seq![EffectView::ShowNotice("model verification: "@ + decimal(entries as nat) + " entries"@)],
            ),
            StatusNotice::Warning { message } => (self, seq![EffectView::RaiseBanner(message@)]),
            StatusNotice::GuardianWarning { message } => (
                self,
                if has_prefix(message@, automatic_approval_prefix()) {
                    seq![]
                } else {
                    seq![EffectView::RaiseBanner(message@)]
                },
            ),
            StatusNotice::ConfigWarning { summary, details } => (
                self,
                seq![
                    EffectView::RaiseBanner(
                        match details {
                            Some(d) => summary@ + ": "@ + d@,
                            None => summary@,
                        },
                    ),
                ],
            ),
            StatusNotice::ThreadSettingsUpdated { thread_id, model_provider, model } => if self.session.thread_id
                == Some(thread_id@) {
                (
                    ShellView {
                        session: SessionView {
                            active_binding: Some((model_provider@, model@)),
                            ..self.session
                        },
                        ..self
                    },
                    seq![EffectView::SyncStatusModel(model@)],
                )
            } else {
                (self, seq![])
            },
            StatusNotice::AuthRecoveryStarted { provider } => (
                self,
                seq![EffectView::RaiseBanner("authentication recovery started ("@ + provider@ + ")"@)],
            ),
            StatusNotice::AuthRecoveryCompleted { provider } => (
                self,
                seq![EffectView::RaiseBanner("authentication recovery completed ("@ + provider@ + ")"@)],
            ),
            StatusNotice::DeprecationNotice { summary } => (self, seq![EffectView::RaiseBanner(summary@)]),
            StatusNotice::GuardianReviewStarted => (
                self,
                seq![EffectView::ShowNotice("guardian auto-review started"@)],
            ),
            StatusNotice::GuardianReviewCompleted => (
                self,
                seq![EffectView::ShowNotice("guardian auto-review completed"@)],
            ),
            StatusNotice::StrictReviewRequired => (
                self,
                seq![EffectView::ShowNotice("guardian strict review required"@)],
            ),
        }
    }
}

/// `head`, then `mid`, then `tail`, as one string.
fn concat3(head: &str, mid: &str, tail: &str) -> (s: String)
    ensures
        s@ == head@ + mid@ + tail@,
{
    let mut s = String::new();
    push_str(&mut s, head);
    push_str(&mut s, mid);
    push_str(&mut s, tail);
    assert(s@ =~= head@ + mid@ + tail@);
    s
}

impl Shell {
    /// Applies one status-bearing notification.
    pub fn status_notified(&mut self, notice: StatusNotice) -> (effects: Vec<Effect>)
        ensures
            (final(self)@, effect_views(effects@)) == old(self)@.on_status_notice(notice),
    {
        match notice {
            StatusNotice::AccountUpdated { auth_mode, plan } => {
                let lowered_plan = match plan {
                    Some(p) => lowercase(p.as_str()),
                    None => String::new(),
                };
                match account_badge(auth_mode, lowered_plan) {
                    Some(badge) => one(Effect::SetAccount(badge)),
                    None => none(),
                }
            },
            StatusNotice::ModelRerouted { from_model, to_model } => {
                let mut text = concat3("model rerouted: ", from_model.as_str(), " -> ");
                push_str(&mut text, to_model.as_str());
                one(Effect::ShowNotice(text))
            },
            StatusNotice::ModelVerification { entries } => {
                let mut text = String::new();
                push_str(&mut text, "model verification: ");
                push_decimal(&mut text, entries);
                push_str(&mut text, " entries");
                one(Effect::ShowNotice(text))
            },
            StatusNotice::Warning { message } => one(Effect::RaiseBanner(message)),
            StatusNotice::GuardianWarning { message } => {
                if starts_with_str(chars_of(message.as_str()).as_slice(), "Automatic approval review approved (") {
                    none()
                } else {
                    one(Effect::RaiseBanner(message))
                }
            },
            StatusNotice::ConfigWarning { summary, details } => match details {
                Some(d) => one(Effect::RaiseBanner(concat3(summary.as_str(), ": ", d.as_str()))),
                None => one(Effect::RaiseBanner(summary)),
            },
            StatusNotice::ThreadSettingsUpdated { thread_id, model_provider, model } => {
                let displayed = match &self.session.thread_id {
                    Some(t) => crate::text::eq_str(t.as_str(), thread_id.as_str()),
                    None => false,
                };
                if displayed {
                    self.session.active_binding = Some((model_provider, model.clone()));
                    one(Effect::SyncStatusModel(model))
                } else {
                    none()
                }
            },
            StatusNotice::AuthRecoveryStarted { provider } => one(
                Effect::RaiseBanner(concat3("authentication recovery started (", provider.as_str(), ")")),
            ),
            StatusNotice::AuthRecoveryCompleted { provider } => one(
                Effect::RaiseBanner(concat3("authentication recovery completed (", provider.as_str(), ")")),
            ),
            StatusNotice::DeprecationNotice { summary } => one(Effect::RaiseBanner(summary)),
            StatusNotice::GuardianReviewStarted => one(
                Effect::ShowNotice(String::from_str("guardian auto-review started")),
            ),
            StatusNotice::GuardianReviewCompleted => one(
                Effect::ShowNotice(String::from_str("guardian auto-review completed")),
            ),
            StatusNotice::StrictReviewRequired => one(
                Effect::ShowNotice(String::from_str("guardian strict review required")),
            ),
        }
    }
}

} // verus!
