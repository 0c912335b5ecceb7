use vstd::prelude::*;

pub mod blog;
pub mod contact;
pub mod messages;

verus! {

} // verus!
