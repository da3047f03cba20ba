//! The rules of a snake game on a bordered grid: the snake's body and heading,
//! the session that moves it, feeds it, ends the run and starts it again.

pub mod canvas;
pub mod game;
pub mod snake;
pub mod theorems;
