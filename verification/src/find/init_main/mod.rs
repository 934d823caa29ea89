pub mod win_main;
