//! A small todo service: the records it stores, the paging of its list
//! query, and the replies that its four routes give.
pub mod handlers;
pub mod ident;
pub mod model;
pub mod paging;
