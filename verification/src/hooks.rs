//! The hook surface the dispatcher observes.
//!
//! The bootstrap owns the hook manager: a mapping from guest instruction
//! addresses whose code byte was replaced by a breakpoint to the hook that
//! should service it. The core only looks hooks up and, for a function
//! hook with a handler, bounces the guest there.

use vstd::prelude::*;

verus! {

/// An installed inline hook; its handler receives control in the guest.
#[derive(Clone, Copy, PartialEq, Eq, Structural, Debug)]
pub struct InlineHook {
    /// The address of the handler the guest is redirected to.
    pub handler: u64,
}

impl InlineHook {
    /// The address of the handler the guest is redirected to.
    pub fn handler_address(&self) -> (r: u64)
        ensures
            r == self.handler,
    {
        self.handler
    }
}

/// What a hook does. The dispatcher only acts on function hooks; any other
/// kind is ignored and the breakpoint is delivered to the guest.
#[derive(Clone, Copy, PartialEq, Eq, Structural, Debug)]
pub enum HookType {
    /// Redirect execution to an inline-hook handler.
    Function { inline_hook: InlineHook },
    /// A page-level hook; not serviced by the breakpoint path.
    Page,
}

/// A registered hook.
#[derive(Clone, Copy, PartialEq, Eq, Structural, Debug)]
pub struct Hook {
    /// What the hook does.
    pub hook_type: HookType,
}

/// The mapping from hooked guest addresses to hooks. It is owned by the
/// bootstrap and shared across processors; the caller synchronizes access.
pub struct HookManager {
    /// Hooked address and hook, in registration order; the first match
    /// wins.
    pub hooks: Vec<(u64, Hook)>,
}

/// The first hook registered for an address, if any.
pub open spec fn spec_find_hook(s: Seq<(u64, Hook)>, address: u64) -> Option<Hook>
    decreases s.len(),
{
    if s.len() == 0 {
        None
    } else if s[0].0 == address {
        Some(s[0].1)
    } else {
        spec_find_hook(s.drop_first(), address)
    }
}

/// A prefix without a match does not change the result of the search.
proof fn lemma_find_hook_skip(s: Seq<(u64, Hook)>, address: u64, i: int)
    requires
        0 <= i < s.len(),
        s[i].0 != address,
        spec_find_hook(s, address) == spec_find_hook(s.skip(i), address),
    ensures
        spec_find_hook(s, address) == spec_find_hook(s.skip(i + 1), address),
{
    assert(s.skip(i).len() > 0);
    assert(s.skip(i)[0] == s[i]);
    assert(s.skip(i).drop_first() =~= s.skip(i + 1));
}

impl HookManager {
    /// An empty hook manager.
    pub fn new() -> (r: HookManager)
        ensures
            r.hooks@ == Seq::<(u64, Hook)>::empty(),
    {
        HookManager { hooks: Vec::new() }
    }

    /// Registers a hook for an address, behind any hook already registered
    /// for it.
    pub fn register(&mut self, address: u64, hook: Hook)
        ensures
            final(self).hooks@ == old(self).hooks@.push((address, hook)),
    {
        self.hooks.push((address, hook));
    }

    /// Finds the first hook registered for an address.
    pub fn find_hook_by_address(&self, address: u64) -> (r: Option<&Hook>)
        ensures
            match r {
                Some(h) => spec_find_hook(self.hooks@, address) == Some(*h),
                None => spec_find_hook(self.hooks@, address) is None,
            },
    {
        let ghost all = self.hooks@;
        proof {
            assert(all.skip(0) =~= all);
        }
        let mut i: usize = 0;
        while i < self.hooks.len()
            invariant
                i <= all.len(),
                all == self.hooks@,
                spec_find_hook(all, address) == spec_find_hook(all.skip(i as int), address),
            decreases all.len() - i,
        {
            if self.hooks[i].0 == address {
                assert(all.skip(i as int)[0] == all[i as int]);
                return Some(&self.hooks[i].1);
            }
            proof {
                lemma_find_hook_skip(all, address, i as int);
            }
            i = i + 1;
        }
        assert(all.skip(all.len() as int) =~= Seq::<(u64, Hook)>::empty());
        None
    }
}

} // verus!
