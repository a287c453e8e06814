//! A UART character driver's event core: received bytes go into a bounded
//! FIFO, the client is signalled at most once per arming, and client requests
//! either transmit one byte or take the oldest buffered one.

pub mod handler;
pub mod laws;
pub mod rx_buffer;
