//! The shared context: the agent's own identity, resolved once after
//! startup, together with the reply texts rendered for it.
//!
//! The replies are rendered once, when the context is created: their payload
//! is only the agent's username, which never changes during a run. A render
//! failure therefore surfaces here, as a startup failure, and never during
//! the handling of an update.

use vstd::prelude::*;

use crate::errors::Error;
use crate::templates::{join_text, replies_render, reply_start_text, TemplateRegistry};
use crate::update::{User, UserV};

verus! {

/// The populated-once bundle every dispatch consults: the agent's identity
/// and the texts it replies with. The membership store itself is owned by
/// the event loop; handling is short-circuited while this is absent.
pub struct Context {
    pub user: User,
    pub join_reply: String,
    pub start_reply: String,
}

impl Context {
    /// The reply texts are exactly the renderings for this identity.
    pub open spec fn wf(&self) -> bool {
        &&& self.join_reply@ == join_text(self.user.username@)
        &&& self.start_reply@ == reply_start_text(self.user.username@)
    }

    /// Build the context for a freshly resolved identity, rendering both
    /// reply templates for it: succeeds exactly when both replies render.
    /// A template failure is startup-fatal.
    pub fn new(user: User, templates: &TemplateRegistry) -> (r: Result<Context, Error>)
        requires
            templates.wf(),
        ensures
            r matches Ok(c) ==> c.wf() && c.user@ == user@,
            replies_render(user.username@) ==> r is Ok,
            r matches Err(e) ==> e == Error::Template && !replies_render(user.username@),
    {
        let join_reply = match templates.render_join(user.username.as_str()) {
            Some(t) => t,
            None => {
                return Err(Error::Template);
            },
        };
        let start_reply = match templates.render_reply_start(user.username.as_str()) {
            Some(t) => t,
            None => {
                return Err(Error::Template);
            },
        };
        Ok(Context { user, join_reply, start_reply })
    }
}

/// The identity a (possibly absent) context carries.
pub open spec fn ctx_user(ctx: Option<Context>) -> Option<UserV> {
    match ctx {
        Some(c) => Some(c.user@),
        None => None,
    }
}

/// Whether a (possibly absent) context is well-formed.
pub open spec fn ctx_wf(ctx: Option<Context>) -> bool {
    match ctx {
        Some(c) => c.wf(),
        None => true,
    }
}

/// The single-slot shared cell in front of the context. The slot moves from
/// empty to populated exactly once and never back.
pub struct ContextHolder {
    slot: Option<Context>,
}

impl View for ContextHolder {
    type V = Option<UserV>;

    closed spec fn view(&self) -> Option<UserV> {
        ctx_user(self.slot)
    }
}

impl ContextHolder {
    pub closed spec fn wf(&self) -> bool {
        ctx_wf(self.slot)
    }

    pub fn new() -> (r: ContextHolder)
        ensures
            r@ is None,
            r.wf(),
    {
        ContextHolder { slot: None }
    }

    /// A non-blocking snapshot read of the slot.
    pub fn get(&self) -> (r: &Option<Context>)
        ensures
            ctx_user(*r) == self@,
            ctx_wf(*r) == self.wf(),
    {
        &self.slot
    }

    /// The single authoritative write, on successful identity resolution.
    pub fn set(&mut self, ctx: Context)
        requires
            old(self)@ is None,
            ctx.wf(),
        ensures
            final(self)@ == Some(ctx.user@),
            final(self).wf(),
    {
        self.slot = Some(ctx);
    }
}

} // verus!
