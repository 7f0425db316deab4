//! The bridge from background work to the UI's redraw request.
use vstd::prelude::*;

verus! {

#[verifier::external_type_specification]
#[verifier::external_body]
pub struct ExContext(egui::Context);

/// Relies on `egui::Context::request_repaint`, which asks the UI for another
/// frame; it returns nothing and never fails.
pub assume_specification[ egui::Context::request_repaint ](ctx: &egui::Context);

/// The UI context once it has been handed over, and whether it has been.
pub struct ContextSet {
    ctx: Option<egui::Context>,
}

impl ContextSet {
    /// The stored UI context, if one has been handed over.
    pub closed spec fn stored(&self) -> Option<egui::Context> {
        self.ctx
    }

    /// Whether a UI context has been handed over.
    pub open spec fn wired(&self) -> bool {
        self.stored() is Some
    }

    /// A bridge that is not wired yet.
    pub fn new() -> (r: ContextSet)
        ensures
            !r.wired(),
    {
        ContextSet { ctx: None }
    }

    /// Whether a UI context has been handed over.
    pub fn is_set(&self) -> (r: bool)
        ensures
            r == self.wired(),
    {
        self.ctx.is_some()
    }

    /// Stores `ctx`, replacing any context stored before; the bridge is
    /// wired from then on.
    pub fn wire(&mut self, ctx: egui::Context)
        ensures
            final(self).wired(),
            final(self).stored() == Some(ctx),
    {
        self.ctx = Some(ctx);
    }

    /// Forwards one repaint request to the stored context; does nothing while
    /// unwired. Returns whether the request was forwarded.
    pub fn request_repaint(&self) -> (forwarded: bool)
        ensures
            forwarded == self.wired(),
    {
        match &self.ctx {
            Some(ctx) => {
                ctx.request_repaint();
                true
            },
            None => false,
        }
    }
}

} // verus!
