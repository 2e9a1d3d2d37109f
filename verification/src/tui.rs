//! The interactive board: its state, the calendar picker, search ranking,
//! and what each key does.
pub mod app;
pub mod calendar;
pub mod editing;
pub mod events;
pub mod search;
pub mod view;
