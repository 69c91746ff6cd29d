//! Control core of a VPN client: the tunnel state machine and the firewall
//! policy model it drives, together with the small platform helpers that the
//! tunnel backends share.
//!
//! The state machine never performs I/O itself. Every handler returns a
//! [`tunnel_state_machine::Step`]: the effects to carry out, in order, and
//! either the consequence of the event or one request whose outcome decides
//! how the handling goes on.

pub mod access_method;
pub mod boringtun;
pub mod dns;
pub mod firewall;
pub mod net;
pub mod normalize;
pub mod nsis;
pub mod tcpip;
pub mod time;
pub mod tunnel;
pub mod tunnel_state_machine;
pub mod window;
pub mod wireguard_config;
pub mod wireguard_nt;
