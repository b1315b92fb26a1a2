//! A Pomodoro study timer: the hour schedule, the countdown timer, the
//! study/break state machine, the study history statistics and the text that
//! the terminal front end draws.

mod clock;
pub mod text;
pub mod timer;
pub mod schedule;
pub mod app;
pub mod history;
pub mod ascii;
pub mod config;
pub mod notify;
pub mod view;
