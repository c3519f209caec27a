//! Small concurrency building blocks: a bounded single-producer /
//! single-consumer queue over a verified ring buffer, a spin mutex, and the
//! head of an arena-linked list.
pub mod linked_list;
pub mod mutex;
pub mod spsc;
