//! Shell transitions of the thread lists (archive, unarchive, deletion)
//! and of the MCP sign-in banner.

use crate::shell::effect_views;
use crate::shell::none;
use crate::shell::one;
use crate::shell::then;
use crate::shell::two;
use crate::shell::Effect;
use crate::shell::EffectView;
use crate::shell::McpLogin;
use crate::shell::Shell;
use crate::shell::ShellView;
use crate::text::push_str;
use vstd::prelude::*;

verus! {

/// `"{name} signed in"` or `"sign-in for {name} failed: {reason}"`, the
/// reason defaulting to `unknown error`.
pub open spec fn login_outcome_notice(name: Seq<char>, success: bool, error: Option<Seq<char>>) -> Seq<char> {
    if success {
        name + " signed in"@
    } else {
        "sign-in for "@ + name + " failed: "@ + match error {
            Some(e) => e,
            None => "unknown error"@,
        }
    }
}

impl ShellView {
    /// The shell with only its sign-in banner replaced.
    pub open spec fn with_mcp_login(self, login: Option<(Seq<char>, Seq<char>)>) -> ShellView {
        ShellView { mcp_login: login, ..self }
    }

    /// A finished MCP sign-in: the banner goes when it tracked this
    /// server, the outcome shows in the settings panel, and an open panel
    /// reloads the inventory.
    pub open spec fn on_mcp_login_completed(
        self,
        name: Seq<char>,
        success: bool,
        error: Option<Seq<char>>,
        settings_open: bool,
    ) -> (ShellView, Seq<EffectView>) {
        (
            match self.mcp_login {
                Some(l) => if l.0 == name {
                    self.with_mcp_login(None)
                } else {
                    self
                },
                None => self,
            },
            seq![EffectView::SettingsNotice(login_outcome_notice(name, success, error))] + if settings_open {
                seq![EffectView::LoadMcpServers]
            } else {
                seq![]
            },
        )
    }
}

/// Three strings joined.
fn joined(a: &str, b: &str, c: &str) -> (s: String)
    ensures
        s@ == a@ + b@ + c@,
{
    let mut s = String::new();
    push_str(&mut s, a);
    push_str(&mut s, b);
    push_str(&mut s, c);
    assert(s@ =~= a@ + b@ + c@);
    s
}

impl Shell {
    /// Archiving one thread from the sidebar.
    pub fn session_archived(&self, thread_id: String) -> (effects: Vec<Effect>)
        ensures
            effect_views(effects@) == seq![EffectView::ArchiveThread(thread_id@), EffectView::LoadSessions],
    {
        two(Effect::ArchiveThread(thread_id), Effect::LoadSessions)
    }

    /// Restoring one archived thread from the sidebar: both lists reload.
    pub fn session_unarchived(&self, thread_id: String) -> (effects: Vec<Effect>)
        ensures
            effect_views(effects@) == seq![
                EffectView::UnarchiveThread(thread_id@),
                EffectView::LoadSessions,
                EffectView::LoadArchivedSessions,
            ],
    {
        let ghost id = thread_id@;
        let effects = vec![Effect::UnarchiveThread(thread_id), Effect::LoadSessions, Effect::LoadArchivedSessions];
        assert(effect_views(effects@) =~= seq![
            EffectView::UnarchiveThread(id),
            EffectView::LoadSessions,
            EffectView::LoadArchivedSessions,
        ]);
        effects
    }

    /// A thread was archived (here or elsewhere): its row leaves the live
    /// list, and an expanded, loaded archived section reloads.
    pub fn thread_archived_notified(&self, thread_id: String) -> (effects: Vec<Effect>)
        ensures
            effect_views(effects@) == seq![EffectView::RemoveSessionRow(thread_id@)] + if self@.panels.archived_open
                && self@.panels.archived_loaded {
                seq![EffectView::LoadArchivedSessions]
            } else {
                seq![]
            },
    {
        let first = one(Effect::RemoveSessionRow(thread_id));
        if self.panels.archived_open && self.panels.archived_loaded {
            then(first, one(Effect::LoadArchivedSessions))
        } else {
            first
        }
    }

    /// A thread was unarchived: its row leaves the archived list, and the
    /// live list reloads unless it already shows the thread (`known`).
    pub fn thread_unarchived_notified(&self, thread_id: String, known: bool) -> (effects: Vec<Effect>)
        ensures
            effect_views(effects@) == seq![EffectView::RemoveArchivedRow(thread_id@)] + if known {
                seq![]
            } else {
                seq![EffectView::LoadSessions]
            },
    {
        if known {
            one(Effect::RemoveArchivedRow(thread_id))
        } else {
            two(Effect::RemoveArchivedRow(thread_id), Effect::LoadSessions)
        }
    }

    /// A thread was deleted: its row leaves the live list.
    pub fn thread_deleted_notified(&self, thread_id: String) -> (effects: Vec<Effect>)
        ensures
            effect_views(effects@) == seq![EffectView::RemoveSessionRow(thread_id@)],
    {
        one(Effect::RemoveSessionRow(thread_id))
    }

    /// Asking for an MCP server's sign-in link.
    pub fn mcp_login_requested(&self, name: String) -> (effects: Vec<Effect>)
        ensures
            effect_views(effects@) == seq![
                EffectView::SettingsNotice("requesting sign-in link for "@ + name@ + "…"@),
                EffectView::StartMcpLogin(name@),
            ],
    {
        let notice = joined("requesting sign-in link for ", name.as_str(), "…");
        two(Effect::SettingsNotice(notice), Effect::StartMcpLogin(name))
    }

    /// The sign-in link arrived (or could not be had): the banner carries
    /// the link, the settings panel says what happened.
    pub fn mcp_login_started(&mut self, name: String, result: Result<String, String>) -> (effects: Vec<Effect>)
        ensures
            match result {
                Ok(url) => final(self)@ == old(self)@.with_mcp_login(Some((name@, url@)))
                    && effect_views(effects@) == seq![
                    EffectView::SettingsNotice("open the sign-in link to connect "@ + name@),
                ],
                Err(e) => final(self)@ == old(self)@ && effect_views(effects@) == seq![
                    EffectView::SettingsNotice("sign-in for "@ + name@ + " failed: "@ + e@),
                ],
            },
    {
        match result {
            Ok(url) => {
                let mut notice = String::new();
                push_str(&mut notice, "open the sign-in link to connect ");
                push_str(&mut notice, name.as_str());
                self.mcp_login = Some(McpLogin { name, url });
                one(Effect::SettingsNotice(notice))
            },
            Err(error) => {
                let mut notice = joined("sign-in for ", name.as_str(), " failed: ");
                push_str(&mut notice, error.as_str());
                one(Effect::SettingsNotice(notice))
            },
        }
    }

    /// Copying the banner's sign-in link.
    pub fn mcp_login_link_copied(&self) -> (effects: Vec<Effect>)
        ensures
            effect_views(effects@) == match self@.mcp_login {
                Some(l) => seq![
                    EffectView::SettingsNotice("sign-in link for "@ + l.0 + " copied"@),
                    EffectView::CopyToClipboard(l.1),
                ],
                None => Seq::<EffectView>::empty(),
            },
    {
        match &self.mcp_login {
            None => none(),
            Some(login) => {
                let notice = joined("sign-in link for ", login.name.as_str(), " copied");
                two(Effect::SettingsNotice(notice), Effect::CopyToClipboard(login.url.clone()))
            },
        }
    }

    /// Dismissing the sign-in banner.
    pub fn mcp_login_dismissed(&mut self)
        ensures
            final(self)@ == old(self)@.with_mcp_login(None),
    {
        self.mcp_login = None;
    }

    /// A sign-in finished; `settings_open` says whether the settings panel
    /// is on screen.
    pub fn mcp_login_completed(
        &mut self,
        name: String,
        success: bool,
        error: Option<String>,
        settings_open: bool,
    ) -> (effects: Vec<Effect>)
        ensures
            (final(self)@, effect_views(effects@)) == old(self)@.on_mcp_login_completed(
                name@,
                success,
                crate::state::opt_view(error),
                settings_open,
            ),
    {
        let tracked_here = match &self.mcp_login {
            Some(login) => crate::text::eq_str(login.name.as_str(), name.as_str()),
            None => false,
        };
        if tracked_here {
            self.mcp_login = None;
        }
        let notice = if success {
            let mut text = String::new();
            push_str(&mut text, name.as_str());
            push_str(&mut text, " signed in");
            text
        } else {
            let mut text = joined("sign-in for ", name.as_str(), " failed: ");
            match &error {
                Some(e) => push_str(&mut text, e.as_str()),
                None => push_str(&mut text, "unknown error"),
            }
            text
        };
        let first = one(Effect::SettingsNotice(notice));
        if settings_open {
            then(first, one(Effect::LoadMcpServers))
        } else {
            first
        }
    }

    /// An MCP server's status moved; an open settings panel reloads the
    /// inventory.
    pub fn mcp_status_updated(&self, settings_open: bool) -> (effects: Vec<Effect>)
        ensures
            effect_views(effects@) == if settings_open {
                seq![EffectView::LoadMcpServers]
            } else {
                Seq::<EffectView>::empty()
            },
    {
        if settings_open {
            one(Effect::LoadMcpServers)
        } else {
            none()
        }
    }
}

} // verus!
