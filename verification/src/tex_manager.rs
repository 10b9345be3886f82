//! The texture store: an explicit context object handing out integer
//! handles that only ever grow, so a destroyed handle never comes back.

use vstd::prelude::*;

use crate::texture::Texture;

verus! {

/// Owns the loaded textures.  Handles start at 1 and are never reused;
/// destroying one leaves a hole that lookups report as absent.
pub struct TextureManager {
    slots: Vec<Option<Texture>>,
}

impl TextureManager {
    /// The texture a handle currently resolves to, if any.
    pub closed spec fn spec_get(self, idx: int) -> Option<Texture> {
        if 1 <= idx <= self.slots@.len() && self.slots@[idx - 1] is Some {
            self.slots@[idx - 1]
        } else {
            None
        }
    }

    /// The highest handle given out so far.
    pub closed spec fn spec_assigned(self) -> int {
        self.slots@.len() as int
    }

    /// An empty store; no handle resolves.
    pub fn new() -> (r: Self)
        ensures
            r.spec_assigned() == 0,
            forall|i: int| r.spec_get(i) is None,
    {
        TextureManager { slots: Vec::new() }
    }

    /// How many handles have been given out so far.
    pub fn assigned_count(&self) -> (r: usize)
        ensures
            r as int == self.spec_assigned(),
    {
        self.slots.len()
    }

    /// Store a texture and return its fresh handle; every other handle
    /// keeps resolving exactly as before.
    pub fn add_texture(&mut self, texture: Texture) -> (idx: i32)
        requires
            old(self).spec_assigned() < 0x7fffffff,
        ensures
            idx as int == old(self).spec_assigned() + 1,
            final(self).spec_assigned() == old(self).spec_assigned() + 1,
            final(self).spec_get(idx as int) == Some(texture),
            forall|i: int| i != idx as int ==> final(self).spec_get(i) == old(self).spec_get(i),
    {
        self.slots.push(Some(texture));
        self.slots.len() as i32
    }

    /// Drop the texture behind a handle; the handle is never reassigned
    /// and every other handle keeps resolving exactly as before.
    pub fn destroy_texture(&mut self, idx: &i32)
        ensures
            final(self).spec_assigned() == old(self).spec_assigned(),
            final(self).spec_get(*idx as int) is None,
            forall|i: int| i != *idx as int ==> final(self).spec_get(i) == old(self).spec_get(i),
    {
        if *idx >= 1 && (*idx as usize) <= self.slots.len() {
            let slot: usize = (*idx as usize) - 1;
            self.slots.set(slot, None);
        }
    }

    /// Look a handle up.
    pub fn get_texture(&self, idx: &i32) -> (r: Option<&Texture>)
        ensures
            match r {
                Some(t) => self.spec_get(*idx as int) == Some(*t),
                None => self.spec_get(*idx as int) is None,
            },
    {
        if *idx >= 1 && (*idx as usize) <= self.slots.len() {
            let slot: usize = (*idx as usize) - 1;
            self.slots[slot].as_ref()
        } else {
            None
        }
    }
}

} // verus!
