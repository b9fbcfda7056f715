pub mod user_message;
