use vstd::prelude::*;

pub mod le;
pub mod codec;
pub mod text;
pub mod event;
pub mod errors;
pub mod status;
pub mod digest;
pub mod store;
pub mod wasm;
pub mod blob;
pub mod observation;
pub mod reference;
pub mod metadata;
pub mod records;
pub mod faults;

verus! {

} // verus!
