pub mod block_manager;
pub mod descriptor;
