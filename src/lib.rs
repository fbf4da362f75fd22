//! ICMPv4 hop discovery: the Internet checksum, the packet codec and the
//! probe engine that decides what to send at each TTL and when to stop.
pub mod checksum;
pub mod codec;
pub mod endian;
pub mod engine;
