//! The marker for values a webview may carry as userdata.

use std::ops::Deref;
use vstd::prelude::*;

verus! {

/// Marks a type as fit to be carried as userdata; every pointer-like type
/// (`&T`, `&mut T`, `Box<T>`, `Rc<T>`, `Arc<T>` and the like) is.
pub trait Userdata {}

impl<T: Deref> Userdata for T {}

} // verus!
