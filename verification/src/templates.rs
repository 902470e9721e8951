//! The reply templates and the renderer.
//!
//! Rendering is done by the handlebars engine; the library holds a registry
//! carrying exactly the two templates below and speaks about rendering only
//! through two uninterpreted functions: `tpl_compiles`, whether a template
//! source compiles, and `render_result`, what rendering a registered
//! template yields. Both are deterministic facts of their arguments, so the
//! contracts below say not only what registration and rendering do but also
//! exactly when they succeed.

use vstd::prelude::*;

use crate::errors::Error;

verus! {

/// Name of the template sent into a group the agent was just added to.
pub const JOIN: &'static str = "join";

/// Body of the `join` template.
pub const TPL_JOIN: &'static str = "Hey! I'm @{{username}}.\n\nNow that I'm here, anyone can invite friends to this group by mentioning me in your conversations.";

/// Name of the template replied to a private `/start` command.
pub const REPLY_START: &'static str = "reply_start";

/// Body of the `reply_start` template.
pub const TPL_REPLY_START: &'static str = "Hello! I'm @{{username}}.\n\nI help manage inviting new users to groups. If you'd like to use me in your groups, add me as an administrator to get started!";

/// Declares handlebars::Handlebars, the template registry, as an opaque
/// outside type; this module speaks about one only through `templates_of`.
#[verifier::external_type_specification]
#[verifier::external_body]
pub struct ExHandlebars<'reg>(handlebars::Handlebars<'reg>);

/// The templates a registry holds: name to template source.
pub uninterp spec fn templates_of(h: handlebars::Handlebars<'static>) -> Map<Seq<char>, Seq<char>>;

/// Whether a template source compiles: a fact of the source text alone.
pub uninterp spec fn tpl_compiles(tpl: Seq<char>) -> bool;

/// What the handlebars engine renders — or that it fails — as a function of
/// the registered templates, the template name and the key/value data.
pub uninterp spec fn render_result(
    templates: Map<Seq<char>, Seq<char>>,
    name: Seq<char>,
    data: Map<Seq<char>, Seq<char>>,
) -> Option<Seq<char>>;

/// A template registry that borrows nothing.
pub type OwnedRegistry = handlebars::Handlebars<'static>;

/// No templates at all.
pub open spec fn no_templates() -> Map<Seq<char>, Seq<char>> {
    Map::empty()
}

/// An optional text, as a mathematical value.
pub open spec fn opt_text(r: Option<String>) -> Option<Seq<char>> {
    match r {
        Some(s) => Some(s@),
        None => None,
    }
}

/// Relies on handlebars::Handlebars::new: a fresh registry holds no
/// templates (it carries only the engine's built-in helpers).
#[verifier::external_body]
fn registry_new() -> (r: OwnedRegistry)
    ensures
        templates_of(r) == no_templates(),
{
    handlebars::Handlebars::new()
}

/// Relies on handlebars::Handlebars::register_template_string: it succeeds
/// exactly when the source compiles, which the engine decides from the
/// source text alone; on success the source is stored under the given name,
/// and on a parse error the registry is left unchanged.
#[verifier::external_body]
fn registry_register(h: &mut handlebars::Handlebars<'static>, name: &str, tpl: &str) -> (ok: bool)
    ensures
        ok == tpl_compiles(tpl@),
        ok ==> templates_of(*final(h)) == templates_of(*old(h)).insert(name@, tpl@),
        !ok ==> templates_of(*final(h)) == templates_of(*old(h)),
{
    h.register_template_string(name, tpl).is_ok()
}

/// Relies on handlebars::Handlebars::render: for a registry reachable through
/// this module (built by `Handlebars::new`, filled only with
/// `register_template_string`) both the outcome and the output are a
/// function of the registered templates, the template name and the supplied
/// data alone.
#[verifier::external_body]
fn registry_render(
    h: &handlebars::Handlebars<'static>,
    name: &str,
    key: &str,
    value: &str,
) -> (r: Option<String>)
    ensures
        opt_text(r) == render_result(templates_of(*h), name@, no_templates().insert(key@, value@)),
{
    let mut data = std::collections::BTreeMap::new();
    data.insert(key.to_string(), value.to_string());
    h.render(name, &data).ok()
}

/// The two templates of this agent, under their names.
pub open spec fn base_templates() -> Map<Seq<char>, Seq<char>> {
    no_templates().insert(JOIN@, TPL_JOIN@).insert(REPLY_START@, TPL_REPLY_START@)
}

/// Both of the agent's template sources compile.
pub open spec fn base_templates_compile() -> bool {
    tpl_compiles(TPL_JOIN@) && tpl_compiles(TPL_REPLY_START@)
}

/// The single-entry payload every render of this agent uses.
pub open spec fn username_payload(username: Seq<char>) -> Map<Seq<char>, Seq<char>> {
    no_templates().insert("username"@, username)
}

/// What rendering the `join` template yields for a given agent username.
pub open spec fn join_render(username: Seq<char>) -> Option<Seq<char>> {
    render_result(base_templates(), JOIN@, username_payload(username))
}

/// What rendering the `reply_start` template yields for a given agent
/// username.
pub open spec fn reply_start_render(username: Seq<char>) -> Option<Seq<char>> {
    render_result(base_templates(), REPLY_START@, username_payload(username))
}

/// Both of the agent's replies render for a given username.
pub open spec fn replies_render(username: Seq<char>) -> bool {
    join_render(username) is Some && reply_start_render(username) is Some
}

/// The text sent into a group on join, for a given agent username.
pub open spec fn join_text(username: Seq<char>) -> Seq<char> {
    match join_render(username) {
        Some(t) => t,
        None => Seq::empty(),
    }
}

/// The text replied to a private `/start`, for a given agent username.
pub open spec fn reply_start_text(username: Seq<char>) -> Seq<char> {
    match reply_start_render(username) {
        Some(t) => t,
        None => Seq::empty(),
    }
}

/// Register both reply templates in `reg`. Succeeds exactly when both
/// sources compile; the registry then holds exactly its previous templates
/// plus these two. A parse failure leaves the registry without at least one
/// of them and is reported as a template error.
pub fn register_all(reg: &mut handlebars::Handlebars<'static>) -> (r: Result<(), Error>)
    ensures
        r matches Ok(()) ==> base_templates_compile() && templates_of(*final(reg)) == templates_of(
            *old(reg),
        ).insert(JOIN@, TPL_JOIN@).insert(REPLY_START@, TPL_REPLY_START@),
        base_templates_compile() ==> r is Ok,
        r matches Err(e) ==> e == Error::Template && !base_templates_compile(),
{
    if !registry_register(reg, JOIN, TPL_JOIN) {
        return Err(Error::Template);
    }
    if !registry_register(reg, REPLY_START, TPL_REPLY_START) {
        return Err(Error::Template);
    }
    Ok(())
}

/// The registry the dispatcher renders with: exactly the two agent templates.
pub struct TemplateRegistry {
    reg: handlebars::Handlebars<'static>,
}

impl TemplateRegistry {
    /// The registry holds exactly the agent's templates.
    pub closed spec fn wf(&self) -> bool {
        templates_of(self.reg) == base_templates()
    }

    /// A fresh registry with both templates registered: built exactly when
    /// both sources compile.
    pub fn new() -> (r: Result<TemplateRegistry, Error>)
        ensures
            r matches Ok(t) ==> t.wf(),
            base_templates_compile() ==> r is Ok,
            r matches Err(e) ==> e == Error::Template && !base_templates_compile(),
    {
        let mut reg = registry_new();
        match register_all(&mut reg) {
            Ok(()) => {
                proof {
                    assert(templates_of(reg) =~= base_templates());
                }
                Ok(TemplateRegistry { reg })
            },
            Err(e) => Err(e),
        }
    }

    /// Render the `join` template for the given agent username: exactly
    /// [`join_render`].
    pub fn render_join(&self, username: &str) -> (r: Option<String>)
        requires
            self.wf(),
        ensures
            opt_text(r) == join_render(username@),
    {
        registry_render(&self.reg, JOIN, "username", username)
    }

    /// Render the `reply_start` template for the given agent username:
    /// exactly [`reply_start_render`].
    pub fn render_reply_start(&self, username: &str) -> (r: Option<String>)
        requires
            self.wf(),
        ensures
            opt_text(r) == reply_start_render(username@),
    {
        registry_render(&self.reg, REPLY_START, "username", username)
    }
}

} // verus!
