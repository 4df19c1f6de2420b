//! The descriptor allocator: how many sets each pool can still give.
//!
//! The pools have a fixed size. The static pool only ever grows, the
//! per-frame pool is emptied with every frame cycle, and the bindless pool
//! serves the sets with a variable-length descriptor array. A pool that is
//! used up refuses; nothing is retried or evicted.

use vstd::prelude::*;
use crate::descriptor_layout::DescriptorSetLayout;
use crate::descriptor_set::{DescriptorSet, PoolClass, SetView};
use crate::error::AshError;

verus! {

/// Keeps count of the sets allocated from each pool.
pub struct DescriptorAllocator {
    static_capacity: u64,
    static_used: u64,
    frame_capacity: u64,
    frame_used: u64,
    bindless_capacity: u64,
    bindless_used: u64,
    frame_cycle: u64,
}

/// The mathematical content of a [`DescriptorAllocator`].
pub struct AllocatorView {
    pub static_capacity: u64,
    pub static_used: u64,
    pub frame_capacity: u64,
    pub frame_used: u64,
    pub bindless_capacity: u64,
    pub bindless_used: u64,
    /// Counts the frame cycles; it starts over after the largest value.
    pub frame_cycle: u64,
}

impl AllocatorView {
    /// No pool holds more sets than its size.
    pub open spec fn wf(self) -> bool {
        &&& self.static_used <= self.static_capacity
        &&& self.frame_used <= self.frame_capacity
        &&& self.bindless_used <= self.bindless_capacity
    }

    /// The sets taken from `pool`.
    pub open spec fn used(self, pool: PoolClass) -> u64 {
        match pool {
            PoolClass::Static => self.static_used,
            PoolClass::PerFrame => self.frame_used,
            PoolClass::Bindless => self.bindless_used,
        }
    }

    /// The size of `pool`.
    pub open spec fn capacity(self, pool: PoolClass) -> u64 {
        match pool {
            PoolClass::Static => self.static_capacity,
            PoolClass::PerFrame => self.frame_capacity,
            PoolClass::Bindless => self.bindless_capacity,
        }
    }

    /// `pool` can give one more set.
    pub open spec fn has_room(self, pool: PoolClass) -> bool {
        self.used(pool) < self.capacity(pool)
    }

    /// The allocator after one set was taken from `pool`.
    pub open spec fn take(self, pool: PoolClass) -> AllocatorView {
        match pool {
            PoolClass::Static => AllocatorView {
                static_used: (self.static_used + 1) as u64,
                ..self
            },
            PoolClass::PerFrame => AllocatorView {
                frame_used: (self.frame_used + 1) as u64,
                ..self
            },
            PoolClass::Bindless => AllocatorView {
                bindless_used: (self.bindless_used + 1) as u64,
                ..self
            },
        }
    }

    /// The allocator after the frame cycle advanced: the per-frame pool is
    /// empty again, the other pools are as they were.
    pub open spec fn next_frame(self) -> AllocatorView {
        AllocatorView {
            frame_used: 0,
            frame_cycle: if self.frame_cycle == u64::MAX {
                0
            } else {
                (self.frame_cycle + 1) as u64
            },
            ..self
        }
    }
}

impl View for DescriptorAllocator {
    type V = AllocatorView;

    closed spec fn view(&self) -> AllocatorView {
        AllocatorView {
            static_capacity: self.static_capacity,
            static_used: self.static_used,
            frame_capacity: self.frame_capacity,
            frame_used: self.frame_used,
            bindless_capacity: self.bindless_capacity,
            bindless_used: self.bindless_used,
            frame_cycle: self.frame_cycle,
        }
    }
}

impl DescriptorAllocator {
    /// The allocator's invariant, see [`AllocatorView::wf`].
    pub open spec fn wf(&self) -> bool {
        self@.wf()
    }

    /// An allocator over three empty pools of the given sizes.
    pub fn new(static_sets: u64, per_frame_sets: u64, bindless_sets: u64) -> (allocator:
        DescriptorAllocator)
        ensures
            allocator.wf(),
            allocator@ == (AllocatorView {
                static_capacity: static_sets,
                static_used: 0,
                frame_capacity: per_frame_sets,
                frame_used: 0,
                bindless_capacity: bindless_sets,
                bindless_used: 0,
                frame_cycle: 0,
            }),
    {
        DescriptorAllocator {
            static_capacity: static_sets,
            static_used: 0,
            frame_capacity: per_frame_sets,
            frame_used: 0,
            bindless_capacity: bindless_sets,
            bindless_used: 0,
            frame_cycle: 0,
        }
    }

    /// The sets that `pool` can still give.
    pub fn remaining(&self, pool: PoolClass) -> (left: u64)
        requires
            self.wf(),
        ensures
            left == self@.capacity(pool) - self@.used(pool),
    {
        match pool {
            PoolClass::Static => self.static_capacity - self.static_used,
            PoolClass::PerFrame => self.frame_capacity - self.frame_used,
            PoolClass::Bindless => self.bindless_capacity - self.bindless_used,
        }
    }

    /// The number of frame cycles begun so far.
    pub fn frame_cycle(&self) -> (cycle: u64)
        ensures
            cycle == self@.frame_cycle,
    {
        self.frame_cycle
    }

    /// Takes a set of `layout` from the static pool; `native` is the handle
    /// under which the device allocated it. Refused, with nothing changed,
    /// when the static pool is used up.
    pub fn allocate_static_set(&mut self, layout: &DescriptorSetLayout, native: u64) -> (result:
        Result<DescriptorSet, AshError>)
        requires
            old(self).wf(),
        ensures
            final(self).wf(),
            match result {
                Ok(set) => {
                    &&& old(self)@.has_room(PoolClass::Static)
                    &&& final(self)@ == old(self)@.take(PoolClass::Static)
                    &&& set@ == (SetView {
                        handle: native,
                        pool: PoolClass::Static,
                        layout: layout@.handle,
                        bindings: layout@.bindings,
                        variable_count: None,
                    })
                },
                Err(error) => {
                    &&& !old(self)@.has_room(PoolClass::Static)
                    &&& final(self)@ == old(self)@
                    &&& error == AshError::DescriptorPoolExhausted(PoolClass::Static)
                },
            },
    {
        if self.static_used >= self.static_capacity {
            return Err(AshError::DescriptorPoolExhausted(PoolClass::Static));
        }
        self.static_used = self.static_used + 1;
        Ok(DescriptorSet::new(native, PoolClass::Static, layout.handle(), layout.bindings(), None))
    }

    /// Takes a set of `layout` from the per-frame pool. Refused, with
    /// nothing changed, when the pool is used up for this frame cycle.
    pub fn allocate_frame_set(&mut self, layout: &DescriptorSetLayout, native: u64) -> (result:
        Result<DescriptorSet, AshError>)
        requires
            old(self).wf(),
        ensures
            final(self).wf(),
            match result {
                Ok(set) => {
                    &&& old(self)@.has_room(PoolClass::PerFrame)
                    &&& final(self)@ == old(self)@.take(PoolClass::PerFrame)
                    &&& set@ == (SetView {
                        handle: native,
                        pool: PoolClass::PerFrame,
                        layout: layout@.handle,
                        bindings: layout@.bindings,
                        variable_count: None,
                    })
                },
                Err(error) => {
                    &&& !old(self)@.has_room(PoolClass::PerFrame)
                    &&& final(self)@ == old(self)@
                    &&& error == AshError::DescriptorPoolExhausted(PoolClass::PerFrame)
                },
            },
    {
        if self.frame_used >= self.frame_capacity {
            return Err(AshError::DescriptorPoolExhausted(PoolClass::PerFrame));
        }
        self.frame_used = self.frame_used + 1;
        Ok(
            DescriptorSet::new(
                native,
                PoolClass::PerFrame,
                layout.handle(),
                layout.bindings(),
                None,
            ),
        )
    }

    /// Takes a set of `layout` from the bindless pool, with descriptor
    /// arrays of `max_count` slots. Refused, with nothing changed, when the
    /// bindless pool is used up.
    pub fn allocate_bindless_set(
        &mut self,
        layout: &DescriptorSetLayout,
        max_count: u32,
        native: u64,
    ) -> (result: Result<DescriptorSet, AshError>)
        requires
            old(self).wf(),
        ensures
            final(self).wf(),
            match result {
                Ok(set) => {
                    &&& old(self)@.has_room(PoolClass::Bindless)
                    &&& final(self)@ == old(self)@.take(PoolClass::Bindless)
                    &&& set@ == (SetView {
                        handle: native,
                        pool: PoolClass::Bindless,
                        layout: layout@.handle,
                        bindings: layout@.bindings,
                        variable_count: Some(max_count),
                    })
                },
                Err(error) => {
                    &&& !old(self)@.has_room(PoolClass::Bindless)
                    &&& final(self)@ == old(self)@
                    &&& error == AshError::DescriptorPoolExhausted(PoolClass::Bindless)
                },
            },
    {
        if self.bindless_used >= self.bindless_capacity {
            return Err(AshError::DescriptorPoolExhausted(PoolClass::Bindless));
        }
        self.bindless_used = self.bindless_used + 1;
        Ok(
            DescriptorSet::new(
                native,
                PoolClass::Bindless,
                layout.handle(),
                layout.bindings(),
                Some(max_count),
            ),
        )
    }

    /// Begins the next frame cycle: the sets of the per-frame pool are given
    /// back, the static and the bindless pool keep theirs.
    pub fn next_frame(&mut self)
        requires
            old(self).wf(),
        ensures
            final(self).wf(),
            final(self)@ == old(self)@.next_frame(),
    {
        self.frame_used = 0;
        self.frame_cycle = if self.frame_cycle == u64::MAX {
            0
        } else {
            self.frame_cycle + 1
        };
    }
}

} // verus!
