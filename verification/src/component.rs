//! What every component has in common: a configuration that its parent
//! replaces as a whole, and the rule by which a component decides whether a
//! replacement is worth a re-render.

use vstd::prelude::*;

verus! {

/// Outcome of handing the configuration `new` to a component that holds
/// `old`: the configuration it holds afterwards, and whether it asks for a
/// re-render. Configurations are compared by value, field by field.
pub open spec fn reconfigure<C>(old: C, new: C) -> (C, bool) {
    if old == new {
        (old, false)
    } else {
        (new, true)
    }
}

/// Handing a component the configuration it already holds changes nothing
/// and asks for no re-render.
pub proof fn lemma_reconfigure_same<C>(config: C)
    ensures
        reconfigure(config, config) == (config, false),
{
}

/// Handing a component a configuration that differs from the one it holds
/// makes it adopt the new one and ask for a re-render.
pub proof fn lemma_reconfigure_changed<C>(old: C, new: C)
    requires
        old != new,
    ensures
        reconfigure(old, new) == (new, true),
{
}

} // verus!
