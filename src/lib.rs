//! A small multi-threaded web server's verified core: the fixed-size worker
//! pool's bookkeeping, the worker and acceptor state machines, and the
//! request-line routing and response framing.

pub mod http;
pub mod pool;
pub mod worker;
pub mod acceptor;
