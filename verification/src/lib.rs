//! The socket registry and packet-dispatch core of a small TCP/IP stack.
//!
//! A [`set::SocketSet`] owns protocol sockets behind stable handles, each in
//! a cell with its own reader/writer lock. The functions of [`dispatch`] hand
//! an inbound UDP datagram or TCP segment to the first socket that accepts
//! it, and answer a packet that no socket claims.

pub mod handle;
pub mod checksum;
pub mod wire;
pub mod udp;
pub mod tcp;
pub mod socket;
pub mod lock;
pub mod meta_lock;
pub mod guard;
pub mod storage;
pub mod set;
pub mod dispatch;
pub mod tunnel;
