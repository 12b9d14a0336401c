//! Shell transitions of the model menu and the settings save: how a
//! vendor/model pick or a saved provider form lands on the running thread.

use crate::shell::effect_views;
use crate::shell::none;
use crate::shell::one;
use crate::shell::then;
use crate::shell::two;
use crate::shell::Effect;
use crate::shell::EffectView;
use crate::shell::PanelsView;
use crate::shell::PendingModelApply;
use crate::shell::PendingView;
use crate::shell::SessionView;
use crate::shell::Shell;
use crate::shell::ShellView;
use crate::state::opt_view;
use crate::text::chars_of;
use crate::text::eq_str;
use crate::text::has_prefix;
use crate::text::push_str;
use crate::text::starts_with_str;
use vstd::prelude::*;

verus! {

/// One key/value pair of a saved settings batch; the value is `None` when
/// it was not a JSON string (it then reads as the empty string).
pub open spec fn edit_text(value: Option<Seq<char>>) -> Seq<char> {
    match value {
        Some(v) => v,
        None => Seq::empty(),
    }
}

/// The `(provider, model, provider table rewritten)` after one more edit
/// of the saved batch: the last value written per key wins.
pub open spec fn setup_step(
    acc: (Seq<char>, Seq<char>, bool),
    key: Seq<char>,
    value: Option<Seq<char>>,
) -> (Seq<char>, Seq<char>, bool) {
    if key == "model_provider"@ {
        (edit_text(value), acc.1, true)
    } else if key == "model"@ {
        (acc.0, edit_text(value), acc.2)
    } else if has_prefix(key, "model_providers"@) {
        (acc.0, acc.1, true)
    } else {
        acc
    }
}

/// The setup a saved batch of edits resolves to, starting from `acc`.
pub open spec fn panel_setup(
    acc: (Seq<char>, Seq<char>, bool),
    edits: Seq<(Seq<char>, Option<Seq<char>>)>,
) -> (Seq<char>, Seq<char>, bool)
    decreases edits.len(),
{
    if edits.len() == 0 {
        acc
    } else {
        panel_setup(setup_step(acc, edits[0].0, edits[0].1), edits.drop_first())
    }
}

/// The views of a saved batch of edits.
pub open spec fn edits_view(edits: Seq<(String, Option<String>)>) -> Seq<(Seq<char>, Option<Seq<char>>)> {
    edits.map_values(|e: (String, Option<String>)| (e.0@, opt_view(e.1)))
}

/// The `(provider, model)` a just-saved panel edit resolves to, plus
/// whether it rewrote the provider table (an endpoint or key change only a
/// new thread can pick up); `provider` and `model` are the form's values
/// before the edits.
pub fn saved_panel_model_setup(provider: &str, model: &str, edits: &[(String, Option<String>)]) -> (r: (
    String,
    String,
    bool,
))
    ensures
        (r.0@, r.1@, r.2) == panel_setup(
            (provider@, model@, false),
            edits@.map_values(|e: (String, Option<String>)| (e.0@, opt_view(e.1))),
        ),
{
    let ghost all = edits@.map_values(|e: (String, Option<String>)| (e.0@, opt_view(e.1)));
    let mut provider_id = provider.to_string();
    let mut model_id = model.to_string();
    let mut rewritten = false;
    let mut i: usize = 0;
    assert(all.skip(0) =~= all);
    while i < edits.len()
        invariant
            i <= edits.len(),
            all == edits@.map_values(|e: (String, Option<String>)| (e.0@, opt_view(e.1))),
            panel_setup((provider@, model@, false), all) == panel_setup(
                (provider_id@, model_id@, rewritten),
                all.skip(i as int),
            ),
        decreases edits.len() - i,
    {
        let key = edits[i].0.as_str();
        let text = match &edits[i].1 {
            Some(v) => v.clone(),
            None => String::new(),
        };
        proof {
            assert(all.skip(i as int).drop_first() =~= all.skip(i as int + 1));
            assert(all.skip(i as int)[0] == all[i as int]);
            assert(text@ == edit_text(all[i as int].1));
        }
        if eq_str(key, "model_provider") {
            provider_id = text;
            rewritten = true;
        } else if eq_str(key, "model") {
            model_id = text;
        } else if starts_with_str(chars_of(key).as_slice(), "model_providers") {
            rewritten = true;
        }
        i = i + 1;
    }
    assert(all.skip(edits.len() as int) =~= Seq::<(Seq<char>, Option<Seq<char>>)>::empty());
    (provider_id, model_id, rewritten)
}

/// `"Model switched to {model}"`.
pub open spec fn switched_notice(model: Seq<char>) -> Seq<char> {
    "Model switched to "@ + model
}

/// `"Saved; conversation moved to {model}"`.
pub open spec fn moved_notice(model: Seq<char>) -> Seq<char> {
    "Saved; conversation moved to "@ + model
}

/// The notice of a write that only records the new default.
pub open spec fn default_notice() -> Seq<char> {
    "Saved; new sessions will use the new model setup"@
}

/// The notice of a fresh thread opened on the new setup.
pub open spec fn fresh_notice() -> Seq<char> {
    "Saved; fresh session started with the new model setup"@
}

/// `"model switch failed: {error}"`.
pub open spec fn switch_failed_notice(error: Seq<char>) -> Seq<char> {
    "model switch failed: "@ + error
}

/// The banner of a failed fork onto another vendor.
pub open spec fn fork_failed_banner(error: Seq<char>) -> Seq<char> {
    "model switch failed: "@ + error + "; the conversation stayed on its previous model"@
}

impl ShellView {
    /// Whether the live thread runs on `provider`.
    pub open spec fn bound_to_provider(self, provider: Seq<char>) -> bool {
        match self.session.active_binding {
            Some(b) => b.0 == provider,
            None => false,
        }
    }

    /// A model pick from the vendor menu, given the pair the config holds:
    /// re-picking the live pair only closes the menu; otherwise the pick is
    /// written to the config and remembered for when the write lands
    /// (in place on the same vendor, retargeted across vendors, nothing
    /// when the thread already runs it or no thread is open).
    pub open spec fn on_vendor_model_picked(
        self,
        provider: Seq<char>,
        model: Seq<char>,
        config_provider: Option<Seq<char>>,
        config_model: Option<Seq<char>>,
    ) -> (ShellView, Seq<EffectView>) {
        let closed = ShellView { panels: PanelsView { model_menu_open: false, ..self.panels }, ..self };
        let config_matches = config_provider == Some(provider) && config_model == Some(model);
        let binding_matches = match self.session.active_binding {
            Some(b) => b.0 == provider && b.1 == model,
            None => config_matches,
        };
        if config_matches && binding_matches {
            (closed, seq![])
        } else {
            let pending = if binding_matches {
                None
            } else {
                match self.session.thread_id {
                    None => None,
                    Some(t) => if self.bound_to_provider(provider) {
                        Some(PendingView::InPlace { thread_id: t, model })
                    } else {
                        Some(PendingView::Retarget { provider_id: provider, model })
                    },
                }
            };
            (
                ShellView {
                    session: SessionView {
                        pending_model_apply: pending,
                        model_switch_pending: true,
                        ..closed.session
                    },
                    ..closed
                },
                seq![EffectView::SelectVendorModel { provider_id: provider, model }],
            )
        }
    }

    /// Carries a freshly written setup onto the running thread: a
    /// same-vendor flip goes in place, a thread without visible history
    /// reopens fresh, any other change forks the thread with its history.
    pub open spec fn retargeted(
        self,
        provider: Seq<char>,
        model: Seq<char>,
        table_rewritten: bool,
        transcript_empty: bool,
    ) -> (ShellView, Seq<EffectView>) {
        match self.session.thread_id {
            None => (self, seq![EffectView::SettingsNotice(default_notice())]),
            Some(t) => if !table_rewritten && self.bound_to_provider(provider) {
                (
                    self,
                    seq![
                        EffectView::SettingsNotice(switched_notice(model)),
                        EffectView::ApplyModelInPlace { thread_id: t, model },
                    ],
                )
            } else if transcript_empty {
                let (next, effects) = self.restarted(None);
                (next, seq![EffectView::SettingsNotice(fresh_notice())] + effects)
            } else {
                (
                    self,
                    seq![
                        EffectView::SettingsNotice(moved_notice(model)),
                        EffectView::ForkThreadWithModel { thread_id: t, provider_id: provider, model },
                    ],
                )
            },
        }
    }

    /// A successful settings write: the config is re-read, and the pending
    /// menu pick (or, failing that, a model-setup edit of the provider
    /// form, resolved to `setup`) is carried onto the running thread.
    pub open spec fn on_settings_saved(
        self,
        panel_edit: bool,
        setup: (Seq<char>, Seq<char>, bool),
        transcript_empty: bool,
    ) -> (ShellView, Seq<EffectView>) {
        let menu_pick = self.session.model_switch_pending;
        let taken = ShellView {
            session: SessionView {
                model_switch_pending: false,
                pending_model_apply: None,
                ..self.session
            },
            ..self
        };
        match self.session.pending_model_apply {
            Some(PendingView::InPlace { thread_id, model }) => (
                taken,
                seq![
                    EffectView::LoadConfig,
                    EffectView::SettingsNotice(switched_notice(model)),
                    EffectView::ApplyModelInPlace { thread_id, model },
                ],
            ),
            Some(PendingView::Retarget { provider_id, model }) => {
                let (next, effects) = taken.retargeted(provider_id, model, false, transcript_empty);
                (next, seq![EffectView::LoadConfig] + effects)
            },
            None => if menu_pick {
                (taken, seq![EffectView::LoadConfig, EffectView::SettingsNotice(default_notice())])
            } else if panel_edit {
                let (next, effects) = taken.retargeted(setup.0, setup.1, setup.2, transcript_empty);
                (next, seq![EffectView::LoadConfig] + effects)
            } else {
                (taken, seq![EffectView::LoadConfig])
            },
        }
    }
}

impl Shell {
    /// A pick from the multi-vendor model menu; `config_provider` and
    /// `config_model` are the pair the menu was rendered from.
    pub fn vendor_model_picked(
        &mut self,
        provider_id: String,
        slug: String,
        config_provider: Option<&str>,
        config_model: Option<&str>,
    ) -> (effects: Vec<Effect>)
        ensures
            (final(self)@, effect_views(effects@)) == old(self)@.on_vendor_model_picked(
                provider_id@,
                slug@,
                match config_provider {
                    Some(p) => Some(p@),
                    None => None,
                },
                match config_model {
                    Some(m) => Some(m@),
                    None => None,
                },
            ),
    {
        self.panels.model_menu_open = false;
        let config_matches = match (config_provider, config_model) {
            (Some(p), Some(m)) => eq_str(p, provider_id.as_str()) && eq_str(m, slug.as_str()),
            _ => false,
        };
        let (binding_matches, same_vendor) = match &self.session.active_binding {
            Some(b) => {
                let same = eq_str(b.0.as_str(), provider_id.as_str());
                (same && eq_str(b.1.as_str(), slug.as_str()), same)
            },
            None => (config_matches, false),
        };
        if config_matches && binding_matches {
            return none();
        }
        self.session.pending_model_apply = if binding_matches {
            None
        } else {
            match &self.session.thread_id {
                None => None,
                Some(t) => if same_vendor {
                    Some(PendingModelApply::InPlace { thread_id: t.clone(), model: slug.clone() })
                } else {
                    Some(PendingModelApply::Retarget { provider_id: provider_id.clone(), model: slug.clone() })
                },
            }
        };
        self.session.model_switch_pending = true;
        one(Effect::SelectVendorModel { provider_id, model: slug })
    }

    /// Carries a freshly written setup onto the running thread.
    fn retarget_thread(
        &mut self,
        provider_id: String,
        model: String,
        table_rewritten: bool,
        transcript_empty: bool,
    ) -> (effects: Vec<Effect>)
        ensures
            (final(self)@, effect_views(effects@)) == old(self)@.retargeted(
                provider_id@,
                model@,
                table_rewritten,
                transcript_empty,
            ),
    {
        let thread_id = match &self.session.thread_id {
            None => {
                return one(
                    Effect::SettingsNotice(String::from_str("Saved; new sessions will use the new model setup")),
                );
            },
            Some(t) => t.clone(),
        };
        let same_vendor = !table_rewritten && match &self.session.active_binding {
            Some(b) => eq_str(b.0.as_str(), provider_id.as_str()),
            None => false,
        };
        if same_vendor {
            let mut notice = String::new();
            push_str(&mut notice, "Model switched to ");
            push_str(&mut notice, model.as_str());
            return two(Effect::SettingsNotice(notice), Effect::ApplyModelInPlace { thread_id, model });
        }
        if transcript_empty {
            let head = one(
                Effect::SettingsNotice(String::from_str("Saved; fresh session started with the new model setup")),
            );
            let restart = self.restart_thread(None);
            return then(head, restart);
        }
        let mut notice = String::new();
        push_str(&mut notice, "Saved; conversation moved to ");
        push_str(&mut notice, model.as_str());
        two(
            Effect::SettingsNotice(notice),
            Effect::ForkThreadWithModel { thread_id, provider_id, model },
        )
    }

    /// The settings write settled. On success `panel_edit` says whether
    /// the provider form touched the model setup, and `provider`, `model`
    /// and `edits` are the form's values and the batch it wrote (read only
    /// when no menu pick is pending); `transcript_empty` says whether the
    /// transcript shows anything. A failure drops the pending pick.
    pub fn settings_saved(
        &mut self,
        result: Result<(), String>,
        panel_edit: bool,
        provider: &str,
        model: &str,
        edits: &[(String, Option<String>)],
        transcript_empty: bool,
    ) -> (effects: Vec<Effect>)
        ensures
            match result {
                Ok(()) => (final(self)@, effect_views(effects@)) == old(self)@.on_settings_saved(
                    panel_edit,
                    panel_setup((provider@, model@, false), edits_view(edits@)),
                    transcript_empty,
                ),
                Err(_) => final(self)@ == (ShellView {
                    session: SessionView {
                        model_switch_pending: false,
                        pending_model_apply: None,
                        ..old(self)@.session
                    },
                    ..old(self)@
                }) && effect_views(effects@) == Seq::<EffectView>::empty(),
            },
    {
        let menu_pick = self.session.model_switch_pending;
        self.session.model_switch_pending = false;
        let pending = self.session.pending_model_apply.take();
        if result.is_err() {
            return none();
        }
        let refresh = one(Effect::LoadConfig);
        match pending {
            Some(PendingModelApply::InPlace { thread_id, model: picked }) => {
                let mut notice = String::new();
                push_str(&mut notice, "Model switched to ");
                push_str(&mut notice, picked.as_str());
                then(refresh, two(Effect::SettingsNotice(notice), Effect::ApplyModelInPlace { thread_id, model: picked }))
            },
            Some(PendingModelApply::Retarget { provider_id, model: picked }) => {
                let more = self.retarget_thread(provider_id, picked, false, transcript_empty);
                then(refresh, more)
            },
            None => if menu_pick {
                then(
                    refresh,
                    one(Effect::SettingsNotice(String::from_str("Saved; new sessions will use the new model setup"))),
                )
            } else if panel_edit {
                let (p, m, rewritten) = saved_panel_model_setup(provider, model, edits);
                let more = self.retarget_thread(p, m, rewritten, transcript_empty);
                then(refresh, more)
            } else {
                refresh
            },
        }
    }

    /// The in-place model switch settled; a failure shows in the settings
    /// panel.
    pub fn model_applied_in_place(&self, result: Result<(), String>) -> (effects: Vec<Effect>)
        ensures
            effect_views(effects@) == match result {
                Ok(()) => Seq::<EffectView>::empty(),
                Err(e) => seq![EffectView::SettingsNotice(switch_failed_notice(e@))],
            },
    {
        match result {
            Ok(()) => none(),
            Err(error) => {
                let mut notice = String::new();
                push_str(&mut notice, "model switch failed: ");
                push_str(&mut notice, error.as_str());
                one(Effect::SettingsNotice(notice))
            },
        }
    }

    /// The fork onto another vendor settled: the forked thread is resumed
    /// and the thread list reloads; a failure keeps the conversation on its
    /// previous pair and raises the banner.
    pub fn model_switch_forked(&mut self, result: Result<String, String>) -> (effects: Vec<Effect>)
        ensures
            match result {
                Ok(t) => (final(self)@, effect_views(effects@)) == ({
                    let (next, resumed) = old(self)@.resumed(t@);
                    (next, resumed + seq![EffectView::LoadSessions])
                }),
                Err(e) => final(self)@ == old(self)@ && effect_views(effects@) == seq![
                    EffectView::RaiseBanner(fork_failed_banner(e@)),
                ],
            },
    {
        match result {
            Ok(thread_id) => {
                let resumed = self.resume_thread(thread_id);
                then(resumed, one(Effect::LoadSessions))
            },
            Err(error) => {
                let mut banner = String::new();
                push_str(&mut banner, "model switch failed: ");
                push_str(&mut banner, error.as_str());
                push_str(&mut banner, "; the conversation stayed on its previous model");
                one(Effect::RaiseBanner(banner))
            },
        }
    }
}

} // verus!
