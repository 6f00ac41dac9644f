pub mod bounded_ring_buffer;
