//! An asynchronous raw reentrant mutex
pub use crate::async_locker::remutex::raw::ReentrantMutex;
