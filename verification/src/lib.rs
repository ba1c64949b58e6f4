/*!
`bgp_models` defines the basic BGP and MRT message data structures, together
with verified contracts for the operations on them: AS-path measurement and
the two-octet/four-octet AS-path reconciliation, the per-update attribute
collection, the community taxonomy with its fixed eight-octet encoding, and
the per-prefix element projection with its stable line rendering.

Most of the structs defined in this library are named after the formal
definitions in a number of RFCs:

- RFC 4271: A Border Gateway Protocol 4 (BGP-4)
- RFC 6793: BGP Support for Four-Octet Autonomous System (AS) Number Space
- RFC 6396: Multi-Threaded Routing Toolkit (MRT) Routing Information Export Format
- RFC 8050: MRT Routing Information Export Format with BGP Additional Path Extensions
*/

pub mod bgp;
pub mod mrt;
pub mod network;
