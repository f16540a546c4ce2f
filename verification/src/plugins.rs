//! Plugins: executables that the daemon consults before and after it runs
//! actions. This module holds their messages and the decisions about them;
//! the daemon finds and runs the executables.
use vstd::prelude::*;
use crate::protocol::{action_views, ActionView, ExecutionResult, IntentAction};
use crate::text::{joined, owned, same_text, string_views};

verus! {

/// The plugin directory in a source checkout.
pub const LOCAL_PLUGINS_DIR: &'static str = "plugins";

/// The installed plugin directory.
pub const INSTALLED_PLUGINS_DIR: &'static str = "/usr/share/debai/plugins";

/// The hook run before actions execute.
pub const PRE_EXECUTE_HOOK: &'static str = "pre_execute";

/// The hook run after actions executed.
pub const POST_EXECUTE_HOOK: &'static str = "post_execute";

/// The status with which a pre-execute hook refuses the actions.
pub const DENY_STATUS: &'static str = "deny";

/// What a plugin says about itself when asked with `--info`.
#[derive(Debug)]
pub struct PluginInfo {
    pub name: String,
    pub version: String,
    pub description: String,
    pub hooks: Vec<String>,
}

/// What a pre-execute hook receives.
#[derive(Debug)]
pub struct PreExecutePayload {
    pub actions: Vec<IntentAction>,
}

/// What a pre-execute hook answers: `"approve"` with the actions to run, or
/// `"deny"` with an optional reason.
#[derive(Debug)]
pub struct PreExecuteResponse {
    pub status: String,
    pub actions: Vec<IntentAction>,
    pub error_message: String,
}

/// What a post-execute hook receives.
#[derive(Debug)]
pub struct PostExecutePayload {
    pub actions: Vec<IntentAction>,
    pub execution_results: Vec<ExecutionResult>,
}

/// Where the daemon looks for plugins.
#[derive(Debug)]
pub struct PluginManager {
    pub plugins_dir: String,
}

impl View for PluginManager {
    type V = Seq<char>;

    open spec fn view(&self) -> Seq<char> {
        self.plugins_dir@
    }
}

impl Clone for PluginManager {
    fn clone(&self) -> (r: Self)
        ensures
            r@ == self@,
    {
        PluginManager { plugins_dir: self.plugins_dir.clone() }
    }
}

/// The plugin directory to use.
pub open spec fn plugins_dir_for(local_dir_exists: bool) -> Seq<char> {
    if local_dir_exists {
        LOCAL_PLUGINS_DIR@
    } else {
        INSTALLED_PLUGINS_DIR@
    }
}

impl PluginManager {
    /// A manager for the checkout's `plugins` directory if it exists, else
    /// for the installed one.
    pub fn new(local_plugins_dir_exists: bool) -> (r: PluginManager)
        ensures
            r@ == plugins_dir_for(local_plugins_dir_exists),
    {
        let dir = if local_plugins_dir_exists {
            LOCAL_PLUGINS_DIR
        } else {
            INSTALLED_PLUGINS_DIR
        };
        PluginManager { plugins_dir: owned(dir) }
    }
}

/// The directory of the manager that `plugin_manager` gives, when `slot`
/// holds a manager for directory `installed` (if any).
pub open spec fn manager_dir(installed: Option<Seq<char>>, local_dir_exists: bool) -> Seq<char> {
    match installed {
        Some(d) => d,
        None => plugins_dir_for(local_dir_exists),
    }
}

/// The view of what a slot holds.
pub open spec fn slot_view(slot: Option<PluginManager>) -> Option<Seq<char>> {
    match slot {
        Some(m) => Some(m@),
        None => None,
    }
}

/// The daemon's one plugin manager: the one already installed in `slot`, or
/// else a new one, which is installed there.
pub fn plugin_manager(slot: &mut Option<PluginManager>, local_plugins_dir_exists: bool) -> (r:
    PluginManager)
    ensures
        r@ == manager_dir(slot_view(*old(slot)), local_plugins_dir_exists),
        slot_view(*final(slot)) == Some(r@),
        *old(slot) is Some ==> *final(slot) == *old(slot),
{
    match slot {
        Some(m) => m.clone(),
        None => {
            let m = PluginManager::new(local_plugins_dir_exists);
            let r = m.clone();
            *slot = Some(m);
            r
        },
    }
}

/// A file whose permission bits let someone execute it.
pub open spec fn executable_mode(mode: u32) -> bool {
    mode & 0o111 != 0
}

/// Whether a file with these permission bits is a plugin (executable by
/// its owner, group or others).
pub fn is_executable_mode(mode: u32) -> (r: bool)
    ensures
        r == executable_mode(mode),
{
    mode & 0o111 != 0
}

impl PluginInfo {
    /// Whether the plugin declares `hook`.
    pub fn supports_hook(&self, hook: &str) -> (r: bool)
        ensures
            r == string_views(self.hooks@).contains(hook@),
    {
        let ghost hv = string_views(self.hooks@);
        for i in 0..self.hooks.len()
            invariant
                hv == string_views(self.hooks@),
                forall|k: int| 0 <= k < i ==> hv[k] != hook@,
        {
            if same_text(self.hooks[i].as_str(), hook) {
                assert(hv[i as int] == hook@);
                return true;
            }
        }
        false
    }
}

/// How a pre-execute hook ended.
#[derive(Debug)]
pub enum HookReply {
    /// The plugin answered.
    Replied(PreExecuteResponse),
    /// The plugin ran, but its answer could not be read.
    Unreadable,
    /// The plugin could not be run or failed.
    Failed,
}

/// The message for a refusal by the plugin `name` with the given reason.
pub open spec fn denial(name: Seq<char>, reason: Seq<char>) -> Seq<char> {
    if reason.len() == 0 {
        "Plugin '"@ + name + "' denied execution."@
    } else {
        "Plugin '"@ + name + "' denied execution: "@ + reason
    }
}

/// The message for a refusal by the plugin `name` with the given reason.
pub fn denial_message(name: &str, reason: &str) -> (r: String)
    ensures
        r@ == denial(name@, reason@),
{
    let head = joined("Plugin '", name);
    if reason.unicode_len() == 0 {
        joined(head.as_str(), "' denied execution.")
    } else {
        let head = joined(head.as_str(), "' denied execution: ");
        joined(head.as_str(), reason)
    }
}

/// The actions after one pre-execute hook: refused with a message if the
/// plugin denies; replaced by the plugin's actions if it answers otherwise;
/// unchanged if it could not be run or its answer could not be read.
pub open spec fn after_hook(
    actions: Seq<ActionView>,
    name: Seq<char>,
    replied: Option<(Seq<char>, Seq<ActionView>, Seq<char>)>,
) -> Result<Seq<ActionView>, Seq<char>> {
    match replied {
        Some((status, new_actions, reason)) => if status == DENY_STATUS@ {
            Err(denial(name, reason))
        } else {
            Ok(new_actions)
        },
        None => Ok(actions),
    }
}

/// The mathematical value of a hook's reply.
pub open spec fn reply_view(reply: HookReply) -> Option<(Seq<char>, Seq<ActionView>, Seq<char>)> {
    match reply {
        HookReply::Replied(r) => Some((r.status@, action_views(r.actions@), r.error_message@)),
        _ => None,
    }
}

/// The actions after the pre-execute hook of the plugin `plugin_name`
/// replied `reply`.
pub fn pre_execute_step(actions: Vec<IntentAction>, plugin_name: &str, reply: HookReply) -> (r:
    Result<Vec<IntentAction>, String>)
    ensures
        match after_hook(action_views(actions@), plugin_name@, reply_view(reply)) {
            Ok(v) => r matches Ok(a) && action_views(a@) == v,
            Err(m) => r matches Err(e) && e@ == m,
        },
{
    match reply {
        HookReply::Replied(resp) => {
            if same_text(resp.status.as_str(), DENY_STATUS) {
                Err(denial_message(plugin_name, resp.error_message.as_str()))
            } else {
                Ok(resp.actions)
            }
        },
        _ => Ok(actions),
    }
}

// ---------------------------------------------------------------------------
// Laws of the plugin layer
// ---------------------------------------------------------------------------

/// Asking for the plugin manager again gives the same manager, whatever the
/// file system looks like by then.
pub proof fn law_plugin_manager_is_created_once(
    installed: Option<Seq<char>>,
    local_first: bool,
    local_later: bool,
)
    ensures
        manager_dir(Some(manager_dir(installed, local_first)), local_later) == manager_dir(
            installed,
            local_first,
        ),
{
}

/// A plugin that fails or answers unreadably never changes the actions; a
/// denial always stops them with the plugin's message.
pub proof fn law_hook_outcomes(actions: Seq<ActionView>, name: Seq<char>, reason: Seq<char>, others: Seq<ActionView>)
    ensures
        after_hook(actions, name, None) == Ok::<Seq<ActionView>, Seq<char>>(actions),
        after_hook(actions, name, Some((DENY_STATUS@, others, reason))) == Err::<Seq<ActionView>, Seq<char>>(
            denial(name, reason),
        ),
{
}

} // verus!
