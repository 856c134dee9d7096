pub mod close;
pub mod deposit;
pub mod initialize;
pub mod time_remaining;
pub mod withdraw;
