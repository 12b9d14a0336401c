//! Where a server notification goes once the thread lists have taken what
//! concerns them: a skills invalidation only refreshes the inventory,
//! traffic of the throwaway commit-draft thread stays with the draft, a
//! resolved server request only updates the dialog queues, and everything
//! else drives the live-thread transitions, the status bar and the
//! transcript.

use crate::shell::Shell;
use crate::shell::ShellView;
use crate::text::eq_str;
use vstd::prelude::*;

verus! {

/// The notifications the routing tells apart.
#[derive(Debug, Clone, Copy, PartialEq, Eq, Structural)]
pub enum NotificationClass {
    /// `skills/changed`: an invalidation signal.
    SkillsChanged,
    /// `serverRequest/resolved`: the server closed a request itself.
    RequestResolved,
    /// Any other notification.
    Other,
}

/// Where one notification goes.
#[derive(Debug, Clone, Copy, PartialEq, Eq, Structural)]
pub enum Route {
    /// Reload the skills inventory and stop.
    RefreshSkills,
    /// Hand it to the commit draft (`Shell::draft_notice`) and stop.
    DraftThread,
    /// Drop the request from the dialog queues and stop.
    ResolveRequest,
    /// Run the live-thread transitions, the status projection and the
    /// transcript.
    Main,
}

impl ShellView {
    /// The route of a notification of `class` on `thread_id` (`None` for
    /// the threadless ones), in precedence order: skills invalidation,
    /// then the running draft's thread, then resolved requests.
    pub open spec fn route(self, class: NotificationClass, thread_id: Option<Seq<char>>) -> Route {
        if class == NotificationClass::SkillsChanged {
            Route::RefreshSkills
        } else if self.git.draft_thread is Some && thread_id == self.git.draft_thread {
            Route::DraftThread
        } else if class == NotificationClass::RequestResolved {
            Route::ResolveRequest
        } else {
            Route::Main
        }
    }
}

impl Shell {
    /// Where a notification of `class` on `thread_id` goes.
    pub fn route_notification(&self, class: NotificationClass, thread_id: Option<&str>) -> (r: Route)
        ensures
            r == self@.route(
                class,
                match thread_id {
                    Some(t) => Some(t@),
                    None => None,
                },
            ),
    {
        if class == NotificationClass::SkillsChanged {
            return Route::RefreshSkills;
        }
        let on_draft = match (&self.git_overlay.draft_thread, thread_id) {
            (Some(d), Some(t)) => eq_str(d.as_str(), t),
            _ => false,
        };
        if on_draft {
            Route::DraftThread
        } else if class == NotificationClass::RequestResolved {
            Route::ResolveRequest
        } else {
            Route::Main
        }
    }
}

} // verus!
