pub mod b64;
pub mod cli;
pub mod errors;
pub mod gen_pass;
pub mod http_serve;
pub mod jwt;
pub mod opts;
pub mod player;
pub mod text;
pub mod utils;
