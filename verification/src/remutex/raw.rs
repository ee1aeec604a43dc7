//! a raw reentrant mutex
pub use crate::reentrant::raw::ReentrantMutex;
