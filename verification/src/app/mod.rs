pub mod event;
pub mod queue_events;
pub mod queue;
pub mod db;
pub mod event_locker;
pub mod locker;
pub mod task;
