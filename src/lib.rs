//! Browser-to-game-server bridge.
//!
//! A browser cannot open raw UDP sockets, so each browser session negotiates a
//! peer connection with two ordered, reliable data channels over a JSON
//! signaling exchange. Once both channels are open, every byte the browser sends
//! is delivered to the game server's UDP socket unmodified, and every datagram
//! the game server sends back is delivered to the browser unmodified.
//!
//! This crate holds the decisions of that bridge as verified state machines:
//! the channel-ready gate (`gate`), the forwarding bridge (`bridge`), and the
//! signaling session (`signaling`). Beside them stand the rules of the plain
//! HTTP side of the listener (`http`), the configuration (`config`), the
//! service's lifecycle under the plugin host (`lifecycle`) and the host's
//! integer codes (`metamod`). The surrounding program performs the network
//! work that these ask for.

mod bridge;
mod config;
mod gate;
mod http;
mod json;
mod lifecycle;
mod metamod;
mod payload;
mod signaling;
mod text;

pub use bridge::{
    lemma_datagram_forwarded_unchanged, lemma_inbound_forwarded_unchanged,
    lemma_quiet_after_shutdown, lemma_second_fire_is_noop, Bridge, BridgeAction, BridgeInput,
    BridgeOutput, BridgeView, Received, MAX_PACKET_SIZE,
};
pub use gate::{
    bits_view, lemma_bit_set_records_open, lemma_gate_starts_exactly_once, role_bit,
    ChannelOpenCounter, ChannelRole, GateView,
};
pub use payload::bytes_contents;
pub use json::{
    json_escaped, json_escaped_char, json_member_of, json_str_member, json_string_literal,
    json_text_of,
};
pub use signaling::{
    candidate_frame, candidate_text, kind_of, lemma_candidate_not_fatal_answer_fatal,
    lemma_end_stops_bridge, offer_frame, offer_text, opt_str, opt_text, signal_kind,
    CandidateOutcome, IgnoreReason, SessionAction, SessionInput, SessionOutput, SessionView,
    SignalKind, SignalMessage, SignalingError, SignalingSession, SignalingState,
};
pub use text::str_eq;
pub use config::{server_addr_text, PluginConfig, Server, DEFAULT_PORT};
pub use http::{
    allowed_folder, asset_path_of, asset_reply_head, byte_len, client_name, content_type_of,
    cors_headers, error_response, escaped_byte, extension, get_content_type, hex_value,
    http_reply, http_reply_of, is_head_end, lower_of, lowered, nth_word, parse_request_line,
    preflight_reply, preflight_text, reply_head, reply_head_text, reply_text, request_target,
    route, route_of, second_field, static_asset_path, url_decode, url_decoded, uuid_simple, word,
    AssetRefusal, HttpReply, RequestHead, RequestHeadView, Route,
};
pub use metamod::{MetaResult, PluginLoadTime, PluginLogLevel, PluginUnloadReason};
pub use lifecycle::{ActivateStep, Lifecycle};
