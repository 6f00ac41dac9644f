pub mod cluster_manager;
pub mod light_source_filter;
