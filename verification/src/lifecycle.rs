//! Ownership and teardown ordering of the window and its surface.
//!
//! The surface is derived from the window, so even though the window is
//! constructed first, the surface must be destroyed first: a derived
//! resource must never outlive the resource it was derived from. Rather
//! than leaning on implicit reverse-construction-order destruction, a
//! single container owns both and exposes an explicit teardown that
//! destroys the surface strictly before the window; the ordering is the
//! container's invariant, so no operation can ever leave a surface alive
//! over a dead window.

use vstd::prelude::*;

verus! {

/// Which owned resource a teardown step destroyed.
#[derive(Clone, Copy, Debug, PartialEq, Eq, Structural)]
pub enum OwnedResource {
    /// The presentation surface, derived from the window.
    Surface,
    /// The window the surface was built from.
    Window,
}

/// The single owner of the window and the surface derived from it.
#[derive(Clone, Copy, Debug, PartialEq, Eq, Structural)]
pub struct ResourceOwner {
    /// The window has been created and not yet destroyed.
    pub window_alive: bool,
    /// The surface has been bound and not yet destroyed.
    pub surface_alive: bool,
}

impl ResourceOwner {
    /// The lifecycle ordering invariant — the core correctness property of
    /// the whole design: a live surface implies a live window.
    pub open spec fn wf(self) -> bool {
        self.surface_alive ==> self.window_alive
    }

    /// Create the owner with the window open and no surface bound yet.
    pub fn with_window() -> (r: ResourceOwner)
        ensures
            r.wf(),
            r.window_alive,
            !r.surface_alive,
    {
        ResourceOwner { window_alive: true, surface_alive: false }
    }

    /// Bind the surface to the window. Only a live window can back a
    /// surface.
    pub fn bind_surface(&mut self)
        requires
            old(self).wf(),
            old(self).window_alive,
            !old(self).surface_alive,
        ensures
            final(self).wf(),
            final(self).window_alive,
            final(self).surface_alive,
    {
        self.surface_alive = true;
    }

    /// Destroy the surface. The window stays alive: destroying the surface
    /// never touches what it was derived from.
    pub fn release_surface(&mut self)
        requires
            old(self).wf(),
            old(self).surface_alive,
        ensures
            final(self).wf(),
            !final(self).surface_alive,
            final(self).window_alive == old(self).window_alive,
    {
        self.surface_alive = false;
    }

    /// Destroy the window. A live surface forbids this — the surface must
    /// go first — so the ordering invariant can never be broken.
    pub fn release_window(&mut self)
        requires
            old(self).wf(),
            old(self).window_alive,
            !old(self).surface_alive,
        ensures
            final(self).wf(),
            !final(self).window_alive,
            !final(self).surface_alive,
    {
        self.window_alive = false;
    }

    /// Tear everything down in the only safe order: the surface strictly
    /// before the window it was built from. Returns the destruction order
    /// actually performed.
    pub fn teardown(&mut self) -> (order: Vec<OwnedResource>)
        requires
            old(self).wf(),
        ensures
            final(self).wf(),
            !final(self).window_alive,
            !final(self).surface_alive,
            old(self).surface_alive ==> order@ == seq![
                OwnedResource::Surface,
                OwnedResource::Window,
            ],
            !old(self).surface_alive && old(self).window_alive ==> order@ == seq![
                OwnedResource::Window,
            ],
            !old(self).surface_alive && !old(self).window_alive ==> order@ == Seq::<
                OwnedResource,
            >::empty(),
    {
        let mut order: Vec<OwnedResource> = Vec::new();
        if self.surface_alive {
            self.release_surface();
            order.push(OwnedResource::Surface);
        }
        if self.window_alive {
            self.release_window();
            order.push(OwnedResource::Window);
        }
        proof {
            if old(self).surface_alive {
                assert(order@ =~= seq![OwnedResource::Surface, OwnedResource::Window]);
            } else if old(self).window_alive {
                assert(order@ =~= seq![OwnedResource::Window]);
            } else {
                assert(order@ =~= Seq::<OwnedResource>::empty());
            }
        }
        order
    }
}

} // verus!
