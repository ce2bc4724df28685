pub mod directinput;
pub mod ffbeast_direct;
