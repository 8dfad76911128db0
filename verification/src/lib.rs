//! Wobbly pointers: reference-counted handles that are weak for inspection
//! but collectively own one strong hold, released by the *first* of them to
//! be dropped.
//!
//! An ordinary strong handle keeps its value alive until the last owner is
//! gone, so a cycle of strong handles leaks forever. A group of wobbly
//! pointers — one construction call plus every clone descended from it —
//! holds exactly one strong unit between them, and whichever member is
//! dropped first releases it; the survivors degrade to ordinary weak
//! handles. A cycle built of wobbly pointers is therefore reclaimed as soon
//! as any one handle of the group is dropped, without designating edges as
//! weak in advance.
//!
//! Two interface-identical variants are provided: [`rc::Wobbly`] for a
//! single thread, over `std::rc`, and [`sync::Wobbly`] for use across
//! threads, over `std::sync`. The group-release protocol they share —
//! exactly one release per group, on the first drop, under any order or
//! interleaving of member drops — is stated and proved over the model in
//! [`group`].

pub mod group;
pub mod rc;
pub mod sync;
