//! A uniform object-storage contract for table engines, with a read-only
//! sharing-endpoint backend that declares every operation and performs none.

pub mod storage;
