//! The navigation stack: where the user is, as a stack of routes that is never empty.
use vstd::prelude::*;

use crate::route::{default_route, home_route, ActiveBlock, Route, RouteId};

verus! {

/// The stack after a drill-down into screen `id`: unchanged when `id` is already
/// on top, else one new route focused and hovered on `block`.
pub open spec fn push_route(s: Seq<Route>, id: RouteId, block: ActiveBlock) -> Seq<Route> {
    if s.len() > 0 && s.last().id == id {
        s
    } else {
        s.push(Route { id, active_block: block, hovered_block: block })
    }
}

/// The stack after backing out: the root route is never removed.
pub open spec fn pop_route(s: Seq<Route>) -> Seq<Route> {
    if s.len() <= 1 {
        s
    } else {
        s.drop_last()
    }
}

/// The top route with each given panel replaced.
pub open spec fn with_blocks(r: Route, active: Option<ActiveBlock>, hovered: Option<ActiveBlock>) -> Route {
    Route {
        id: r.id,
        active_block: match active {
            Some(b) => b,
            None => r.active_block,
        },
        hovered_block: match hovered {
            Some(b) => b,
            None => r.hovered_block,
        },
    }
}

/// The stack after the top route's panels are set; the rest is untouched.
pub open spec fn set_top_blocks(
    s: Seq<Route>,
    active: Option<ActiveBlock>,
    hovered: Option<ActiveBlock>,
) -> Seq<Route> {
    if s.len() == 0 {
        s
    } else {
        s.update(s.len() - 1, with_blocks(s.last(), active, hovered))
    }
}

/// One operation on the navigation stack.
pub enum NavOp {
    Push(RouteId, ActiveBlock),
    Pop,
    SetBlocks(Option<ActiveBlock>, Option<ActiveBlock>),
}

/// The stack after one operation.
pub open spec fn apply_nav_op(s: Seq<Route>, op: NavOp) -> Seq<Route> {
    match op {
        NavOp::Push(id, block) => push_route(s, id, block),
        NavOp::Pop => pop_route(s),
        NavOp::SetBlocks(active, hovered) => set_top_blocks(s, active, hovered),
    }
}

/// The stack after a sequence of operations, applied first to last.
pub open spec fn apply_nav_ops(s: Seq<Route>, ops: Seq<NavOp>) -> Seq<Route>
    decreases ops.len(),
{
    if ops.len() == 0 {
        s
    } else {
        apply_nav_op(apply_nav_ops(s, ops.drop_last()), ops.last())
    }
}

/// Ordered routes, the last one being the screen shown.
pub struct NavigationStack {
    routes: Vec<Route>,
}

impl View for NavigationStack {
    type V = Seq<Route>;

    closed spec fn view(&self) -> Seq<Route> {
        self.routes@
    }
}

impl NavigationStack {
    /// A stack is well formed when it holds at least one route.
    pub open spec fn wf(&self) -> bool {
        self@.len() >= 1
    }

    /// A stack holding the home route alone.
    pub fn new() -> (r: Self)
        ensures
            r@ == seq![home_route()],
            r.wf(),
    {
        let mut routes: Vec<Route> = Vec::new();
        routes.push(default_route());
        NavigationStack { routes }
    }

    /// Number of routes on the stack.
    pub fn length(&self) -> (n: usize)
        ensures
            n == self@.len(),
    {
        self.routes.len()
    }

    /// The route on top of the stack.
    pub fn current(&self) -> (r: &Route)
        requires
            self.wf(),
        ensures
            *r == self@.last(),
    {
        let n = self.routes.len();
        &self.routes[n - 1]
    }

    /// Drills into screen `id`, unless it is already on top.
    pub fn push(&mut self, id: RouteId, block: ActiveBlock)
        requires
            old(self).wf(),
        ensures
            final(self)@ == push_route(old(self)@, id, block),
            final(self).wf(),
    {
        let n = self.routes.len();
        if self.routes[n - 1].id != id {
            self.routes.push(Route { id, active_block: block, hovered_block: block });
        }
    }

    /// Backs out of the top screen. On the root route nothing is popped and
    /// `None` comes back.
    pub fn pop(&mut self) -> (r: Option<Route>)
        requires
            old(self).wf(),
        ensures
            final(self)@ == pop_route(old(self)@),
            final(self).wf(),
            r == (if old(self)@.len() == 1 { None } else { Some(old(self)@.last()) }),
    {
        if self.routes.len() == 1 {
            None
        } else {
            self.routes.pop()
        }
    }

    /// Sets the focused and hovered panels of the top route, each only where given.
    pub fn set_current_route_state(&mut self, active: Option<ActiveBlock>, hovered: Option<ActiveBlock>)
        requires
            old(self).wf(),
        ensures
            final(self)@ == set_top_blocks(old(self)@, active, hovered),
            final(self).wf(),
    {
        let n = self.routes.len();
        let mut top = self.routes[n - 1];
        if let Some(b) = active {
            top.active_block = b;
        }
        if let Some(b) = hovered {
            top.hovered_block = b;
        }
        self.routes.set(n - 1, top);
    }
}

/// No sequence of pushes, pops and panel changes ever empties a stack that
/// starts with at least one route.
pub proof fn lemma_stack_never_empty(s: Seq<Route>, ops: Seq<NavOp>)
    requires
        s.len() >= 1,
    ensures
        apply_nav_ops(s, ops).len() >= 1,
    decreases ops.len(),
{
    if ops.len() > 0 {
        lemma_stack_never_empty(s, ops.drop_last());
    }
}

/// Pushing the screen that is already on top leaves the stack as it was, so
/// its length does not grow.
pub proof fn lemma_push_same_screen(s: Seq<Route>, block: ActiveBlock)
    requires
        s.len() >= 1,
    ensures
        push_route(s, s.last().id, block) == s,
        push_route(s, s.last().id, block).len() == s.len(),
{
}

/// Popping a stack that holds only its root yields the same stack of length one.
pub proof fn lemma_pop_root(s: Seq<Route>)
    requires
        s.len() == 1,
    ensures
        pop_route(s) == s,
        pop_route(s).len() == 1,
{
}

} // verus!
