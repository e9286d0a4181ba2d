//! What a controller works with and what it gives back.

use vstd::prelude::*;
use crate::dom::RustDOM;
use crate::store::Store;

verus! {

/// One thing that a controller asks the framework to do, in order.
pub enum Effect {
    /// Evaluate a script in the web view.
    Run { script: String },
    /// Print a line on the console.
    Print { line: String },
}

/// The meaning of an `Effect`.
pub enum EffectView {
    Run { script: Seq<char> },
    Print { line: Seq<char> },
}

impl View for Effect {
    type V = EffectView;

    open spec fn view(&self) -> EffectView {
        match self {
            Effect::Run { script } => EffectView::Run { script: script@ },
            Effect::Print { line } => EffectView::Print { line: line@ },
        }
    }
}

/// The meaning of a list of effects.
pub open spec fn effects_view(es: Seq<Effect>) -> Seq<EffectView> {
    es.map_values(|e: Effect| e@)
}

/// The context a controller gets with each command: the page and the store.
pub struct AppContext {
    pub dom: RustDOM,
    pub store: Store,
}

impl AppContext {
    /// The context's invariant: that of its store.
    pub open spec fn wf(&self) -> bool {
        self.store.wf()
    }

    /// A context with an empty store.
    pub fn new() -> (ctx: AppContext)
        ensures
            ctx.wf(),
            ctx.store@ == Map::<Seq<char>, Seq<char>>::empty(),
    {
        AppContext { dom: RustDOM, store: Store::new() }
    }
}

/// A controller: it answers the commands of its namespace.
pub trait AlakitController {
    /// Answers a text command: changes the store and gives what to do.
    fn handle(&self, cmd: &str, args: &str, ctx: &mut AppContext) -> (effects: Vec<Effect>)
        requires
            old(ctx).wf(),
        ensures
            final(ctx).wf(),
    ;

    /// Answers a binary command; by default it does nothing.
    fn handle_binary(&self, cmd: &str, payload: &[u8], ctx: &mut AppContext) -> (effects: Vec<
        Effect,
    >)
        requires
            old(ctx).wf(),
        ensures
            final(ctx).wf(),
        default_ensures
            final(ctx).store@ == old(ctx).store@,
            effects@.len() == 0,
    {
        Vec::new()
    }
}

} // verus!
