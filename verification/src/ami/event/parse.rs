//! Reading each known event from a raw message.
use vstd::prelude::*;
use crate::ami::codec::RawAmiMessage;
use crate::text::str_eq;
use super::{AmiEvent, EventKind, read_fields, typed_view, text_field, number_field, optional_field, malformed, clone_pairs};
use super::schema::{new_channel_fields, hangup_fields, newstate_fields, dial_begin_fields, dial_end_fields, dtmf_begin_fields, dtmf_end_fields, fully_booted_fields, peer_status_fields, bridge_create_fields, bridge_destroy_fields, bridge_enter_fields, bridge_leave_fields, var_set_fields, hold_fields, unhold_fields, hangup_request_fields, soft_hangup_request_fields, new_exten_fields, new_callerid_fields, new_connected_line_fields, new_account_code_fields, rename_fields, originate_response_fields, dial_state_fields, flash_fields, wink_fields, user_event_fields, attended_transfer_fields, blind_transfer_fields, bridge_merge_fields, bridge_info_channel_fields, bridge_info_complete_fields, bridge_video_source_update_fields, local_bridge_fields, local_optimization_begin_fields, local_optimization_end_fields, cdr_fields, cel_fields, queue_caller_abandon_fields, queue_caller_join_fields, queue_caller_leave_fields, queue_member_added_fields, queue_member_removed_fields, queue_member_pause_fields, queue_member_status_fields, queue_member_penalty_fields, queue_member_ringinuse_fields, queue_params_fields, queue_entry_fields, agent_called_fields, agent_connect_fields, agent_complete_fields, agent_dump_fields, agent_login_fields, agent_logoff_fields, agent_ring_no_answer_fields, agents_fields, agents_complete_fields, confbridge_start_fields, confbridge_end_fields, confbridge_join_fields, confbridge_leave_fields, confbridge_list_fields, confbridge_mute_fields, confbridge_unmute_fields, confbridge_talking_fields, confbridge_record_fields, confbridge_stop_record_fields, confbridge_list_rooms_fields, mix_monitor_start_fields, mix_monitor_stop_fields, mix_monitor_mute_fields, music_on_hold_start_fields, music_on_hold_stop_fields, parked_call_fields, parked_call_give_up_fields, parked_call_time_out_fields, parked_call_swap_fields, un_parked_call_fields, pickup_fields, chan_spy_start_fields, chan_spy_stop_fields, channel_talking_start_fields, channel_talking_stop_fields, device_state_change_fields, extension_status_fields, presence_state_change_fields, presence_status_fields, contact_status_fields, registry_fields, message_waiting_fields, voicemail_password_change_fields, rtcp_received_fields, rtcp_sent_fields, failed_acl_fields, invalid_account_id_fields, invalid_password_fields, challenge_response_failed_fields, challenge_sent_fields, successful_auth_fields, session_limit_fields, unexpected_address_fields, request_bad_format_fields, request_not_allowed_fields, request_not_supported_fields, invalid_transport_fields, auth_method_not_allowed_fields, shutdown_fields, reload_fields, load_fields, unload_fields, log_channel_fields, load_average_limit_fields, memory_limit_fields, async_agi_start_fields, async_agi_exec_fields, async_agi_end_fields, agi_exec_start_fields, agi_exec_end_fields, hangup_handler_push_fields, hangup_handler_pop_fields, hangup_handler_run_fields, status_fields, status_complete_fields, core_show_channel_fields, core_show_channels_complete_fields, core_show_channel_map_complete_fields, dahdi_channel_fields, alarm_fields, alarm_clear_fields, span_alarm_fields, span_alarm_clear_fields, aoc_d_fields, aoc_e_fields, aoc_s_fields, fax_status_fields, receive_fax_fields, send_fax_fields, meetme_join_fields, meetme_leave_fields, meetme_end_fields, meetme_mute_fields, meetme_talking_fields, meetme_talk_request_fields, meetme_list_fields, meetme_list_rooms_fields, device_state_list_complete_fields, extension_state_list_complete_fields, presence_state_list_complete_fields, aor_detail_fields, aor_list_fields, aor_list_complete_fields, auth_detail_fields, auth_list_fields, auth_list_complete_fields, contact_list_fields, contact_list_complete_fields, contact_status_detail_fields, endpoint_detail_fields, endpoint_detail_complete_fields, endpoint_list_fields, endpoint_list_complete_fields, identify_detail_fields, transport_detail_fields, resource_list_detail_fields, inbound_registration_detail_fields, outbound_registration_detail_fields, inbound_subscription_detail_fields, outbound_subscription_detail_fields, mwi_get_fields, mwi_get_complete_fields, mini_voice_mail_fields, fax_session_fields, fax_sessions_entry_fields, fax_sessions_complete_fields, fax_stats_fields, dnd_state_fields, deadlock_start_fields, mcid_fields, schema_01, schema_02, schema_03, schema_04, schema_05, schema_06, schema_07, schema_08, schema_09, schema_10, schema_11, schema_12};

verus! {

/// Reads a `Newchannel` event.
fn parse_new_channel(raw: &RawAmiMessage, event_name: &str) -> (r: AmiEvent)
    ensures
        r@ == typed_view(raw@, event_name@, EventKind::NewChannel, new_channel_fields()),
{
    proof {
        reveal_with_fuel(read_fields, 8);
    }
    let channel = match text_field(raw, "Channel") {
        Some(v) => v,
        None => return malformed(raw, event_name, "Channel"),
    };
    let channel_state = match text_field(raw, "ChannelState") {
        Some(v) => v,
        None => return malformed(raw, event_name, "ChannelState"),
    };
    let channel_state_desc = match text_field(raw, "ChannelStateDesc") {
        Some(v) => v,
        None => return malformed(raw, event_name, "ChannelStateDesc"),
    };
    let caller_id_num = match text_field(raw, "CallerIDNum") {
        Some(v) => v,
        None => return malformed(raw, event_name, "CallerIDNum"),
    };
    let caller_id_name = match text_field(raw, "CallerIDName") {
        Some(v) => v,
        None => return malformed(raw, event_name, "CallerIDName"),
    };
    let unique_id = match text_field(raw, "Uniqueid") {
        Some(v) => v,
        None => return malformed(raw, event_name, "Uniqueid"),
    };
    let linked_id = match text_field(raw, "Linkedid") {
        Some(v) => v,
        None => return malformed(raw, event_name, "Linkedid"),
    };
    AmiEvent::NewChannel { channel, channel_state, channel_state_desc, caller_id_num, caller_id_name, unique_id, linked_id }
}

/// Reads a `Hangup` event.
fn parse_hangup(raw: &RawAmiMessage, event_name: &str) -> (r: AmiEvent)
    ensures
        r@ == typed_view(raw@, event_name@, EventKind::Hangup, hangup_fields()),
{
    proof {
        reveal_with_fuel(read_fields, 5);
    }
    let channel = match text_field(raw, "Channel") {
        Some(v) => v,
        None => return malformed(raw, event_name, "Channel"),
    };
    let unique_id = match text_field(raw, "Uniqueid") {
        Some(v) => v,
        None => return malformed(raw, event_name, "Uniqueid"),
    };
    let cause = match number_field(raw, "Cause") {
        Some(v) => v,
        None => return malformed(raw, event_name, "Cause"),
    };
    let cause_txt = match text_field(raw, "Cause-txt") {
        Some(v) => v,
        None => return malformed(raw, event_name, "Cause-txt"),
    };
    AmiEvent::Hangup { channel, unique_id, cause, cause_txt }
}

/// Reads a `Newstate` event.
fn parse_newstate(raw: &RawAmiMessage, event_name: &str) -> (r: AmiEvent)
    ensures
        r@ == typed_view(raw@, event_name@, EventKind::Newstate, newstate_fields()),
{
    proof {
        reveal_with_fuel(read_fields, 5);
    }
    let channel = match text_field(raw, "Channel") {
        Some(v) => v,
        None => return malformed(raw, event_name, "Channel"),
    };
    let channel_state = match text_field(raw, "ChannelState") {
        Some(v) => v,
        None => return malformed(raw, event_name, "ChannelState"),
    };
    let channel_state_desc = match text_field(raw, "ChannelStateDesc") {
        Some(v) => v,
        None => return malformed(raw, event_name, "ChannelStateDesc"),
    };
    let unique_id = match text_field(raw, "Uniqueid") {
        Some(v) => v,
        None => return malformed(raw, event_name, "Uniqueid"),
    };
    AmiEvent::Newstate { channel, channel_state, channel_state_desc, unique_id }
}

/// Reads a `DialBegin` event.
fn parse_dial_begin(raw: &RawAmiMessage, event_name: &str) -> (r: AmiEvent)
    ensures
        r@ == typed_view(raw@, event_name@, EventKind::DialBegin, dial_begin_fields()),
{
    proof {
        reveal_with_fuel(read_fields, 6);
    }
    let channel = match text_field(raw, "Channel") {
        Some(v) => v,
        None => return malformed(raw, event_name, "Channel"),
    };
    let destination = match text_field(raw, "DestChannel") {
        Some(v) => v,
        None => return malformed(raw, event_name, "DestChannel"),
    };
    let dial_string = match text_field(raw, "DialString") {
        Some(v) => v,
        None => return malformed(raw, event_name, "DialString"),
    };
    let unique_id = match text_field(raw, "Uniqueid") {
        Some(v) => v,
        None => return malformed(raw, event_name, "Uniqueid"),
    };
    let dest_unique_id = match text_field(raw, "DestUniqueid") {
        Some(v) => v,
        None => return malformed(raw, event_name, "DestUniqueid"),
    };
    AmiEvent::DialBegin { channel, destination, dial_string, unique_id, dest_unique_id }
}

/// Reads a `DialEnd` event.
fn parse_dial_end(raw: &RawAmiMessage, event_name: &str) -> (r: AmiEvent)
    ensures
        r@ == typed_view(raw@, event_name@, EventKind::DialEnd, dial_end_fields()),
{
    proof {
        reveal_with_fuel(read_fields, 6);
    }
    let channel = match text_field(raw, "Channel") {
        Some(v) => v,
        None => return malformed(raw, event_name, "Channel"),
    };
    let destination = match text_field(raw, "DestChannel") {
        Some(v) => v,
        None => return malformed(raw, event_name, "DestChannel"),
    };
    let dial_status = match text_field(raw, "DialStatus") {
        Some(v) => v,
        None => return malformed(raw, event_name, "DialStatus"),
    };
    let unique_id = match text_field(raw, "Uniqueid") {
        Some(v) => v,
        None => return malformed(raw, event_name, "Uniqueid"),
    };
    let dest_unique_id = match text_field(raw, "DestUniqueid") {
        Some(v) => v,
        None => return malformed(raw, event_name, "DestUniqueid"),
    };
    AmiEvent::DialEnd { channel, destination, dial_status, unique_id, dest_unique_id }
}

/// Reads a `DTMFBegin` event.
fn parse_dtmf_begin(raw: &RawAmiMessage, event_name: &str) -> (r: AmiEvent)
    ensures
        r@ == typed_view(raw@, event_name@, EventKind::DtmfBegin, dtmf_begin_fields()),
{
    proof {
        reveal_with_fuel(read_fields, 5);
    }
    let channel = match text_field(raw, "Channel") {
        Some(v) => v,
        None => return malformed(raw, event_name, "Channel"),
    };
    let digit = match text_field(raw, "Digit") {
        Some(v) => v,
        None => return malformed(raw, event_name, "Digit"),
    };
    let direction = match text_field(raw, "Direction") {
        Some(v) => v,
        None => return malformed(raw, event_name, "Direction"),
    };
    let unique_id = match text_field(raw, "Uniqueid") {
        Some(v) => v,
        None => return malformed(raw, event_name, "Uniqueid"),
    };
    AmiEvent::DtmfBegin { channel, digit, direction, unique_id }
}

/// Reads a `DTMFEnd` event.
fn parse_dtmf_end(raw: &RawAmiMessage, event_name: &str) -> (r: AmiEvent)
    ensures
        r@ == typed_view(raw@, event_name@, EventKind::DtmfEnd, dtmf_end_fields()),
{
    proof {
        reveal_with_fuel(read_fields, 6);
    }
    let channel = match text_field(raw, "Channel") {
        Some(v) => v,
        None => return malformed(raw, event_name, "Channel"),
    };
    let digit = match text_field(raw, "Digit") {
        Some(v) => v,
        None => return malformed(raw, event_name, "Digit"),
    };
    let duration_ms = match number_field(raw, "DurationMs") {
        Some(v) => v,
        None => return malformed(raw, event_name, "DurationMs"),
    };
    let direction = match text_field(raw, "Direction") {
        Some(v) => v,
        None => return malformed(raw, event_name, "Direction"),
    };
    let unique_id = match text_field(raw, "Uniqueid") {
        Some(v) => v,
        None => return malformed(raw, event_name, "Uniqueid"),
    };
    AmiEvent::DtmfEnd { channel, digit, duration_ms, direction, unique_id }
}

/// Reads a `FullyBooted` event.
fn parse_fully_booted(raw: &RawAmiMessage, event_name: &str) -> (r: AmiEvent)
    ensures
        r@ == typed_view(raw@, event_name@, EventKind::FullyBooted, fully_booted_fields()),
{
    proof {
        reveal_with_fuel(read_fields, 2);
    }
    let status = match text_field(raw, "Status") {
        Some(v) => v,
        None => return malformed(raw, event_name, "Status"),
    };
    AmiEvent::FullyBooted { status }
}

/// Reads a `PeerStatus` event.
fn parse_peer_status(raw: &RawAmiMessage, event_name: &str) -> (r: AmiEvent)
    ensures
        r@ == typed_view(raw@, event_name@, EventKind::PeerStatus, peer_status_fields()),
{
    proof {
        reveal_with_fuel(read_fields, 4);
    }
    let channel_type = match text_field(raw, "ChannelType") {
        Some(v) => v,
        None => return malformed(raw, event_name, "ChannelType"),
    };
    let peer = match text_field(raw, "Peer") {
        Some(v) => v,
        None => return malformed(raw, event_name, "Peer"),
    };
    let peer_status = match text_field(raw, "PeerStatus") {
        Some(v) => v,
        None => return malformed(raw, event_name, "PeerStatus"),
    };
    AmiEvent::PeerStatus { channel_type, peer, peer_status }
}

/// Reads a `BridgeCreate` event.
fn parse_bridge_create(raw: &RawAmiMessage, event_name: &str) -> (r: AmiEvent)
    ensures
        r@ == typed_view(raw@, event_name@, EventKind::BridgeCreate, bridge_create_fields()),
{
    proof {
        reveal_with_fuel(read_fields, 3);
    }
    let bridge_unique_id = match text_field(raw, "BridgeUniqueid") {
        Some(v) => v,
        None => return malformed(raw, event_name, "BridgeUniqueid"),
    };
    let bridge_type = match text_field(raw, "BridgeType") {
        Some(v) => v,
        None => return malformed(raw, event_name, "BridgeType"),
    };
    AmiEvent::BridgeCreate { bridge_unique_id, bridge_type }
}

/// Reads a `BridgeDestroy` event.
fn parse_bridge_destroy(raw: &RawAmiMessage, event_name: &str) -> (r: AmiEvent)
    ensures
        r@ == typed_view(raw@, event_name@, EventKind::BridgeDestroy, bridge_destroy_fields()),
{
    proof {
        reveal_with_fuel(read_fields, 2);
    }
    let bridge_unique_id = match text_field(raw, "BridgeUniqueid") {
        Some(v) => v,
        None => return malformed(raw, event_name, "BridgeUniqueid"),
    };
    AmiEvent::BridgeDestroy { bridge_unique_id }
}

/// Reads a `BridgeEnter` event.
fn parse_bridge_enter(raw: &RawAmiMessage, event_name: &str) -> (r: AmiEvent)
    ensures
        r@ == typed_view(raw@, event_name@, EventKind::BridgeEnter, bridge_enter_fields()),
{
    proof {
        reveal_with_fuel(read_fields, 4);
    }
    let bridge_unique_id = match text_field(raw, "BridgeUniqueid") {
        Some(v) => v,
        None => return malformed(raw, event_name, "BridgeUniqueid"),
    };
    let channel = match text_field(raw, "Channel") {
        Some(v) => v,
        None => return malformed(raw, event_name, "Channel"),
    };
    let unique_id = match text_field(raw, "Uniqueid") {
        Some(v) => v,
        None => return malformed(raw, event_name, "Uniqueid"),
    };
    AmiEvent::BridgeEnter { bridge_unique_id, channel, unique_id }
}

/// Reads a `BridgeLeave` event.
fn parse_bridge_leave(raw: &RawAmiMessage, event_name: &str) -> (r: AmiEvent)
    ensures
        r@ == typed_view(raw@, event_name@, EventKind::BridgeLeave, bridge_leave_fields()),
{
    proof {
        reveal_with_fuel(read_fields, 4);
    }
    let bridge_unique_id = match text_field(raw, "BridgeUniqueid") {
        Some(v) => v,
        None => return malformed(raw, event_name, "BridgeUniqueid"),
    };
    let channel = match text_field(raw, "Channel") {
        Some(v) => v,
        None => return malformed(raw, event_name, "Channel"),
    };
    let unique_id = match text_field(raw, "Uniqueid") {
        Some(v) => v,
        None => return malformed(raw, event_name, "Uniqueid"),
    };
    AmiEvent::BridgeLeave { bridge_unique_id, channel, unique_id }
}

/// Reads a `VarSet` event.
fn parse_var_set(raw: &RawAmiMessage, event_name: &str) -> (r: AmiEvent)
    ensures
        r@ == typed_view(raw@, event_name@, EventKind::VarSet, var_set_fields()),
{
    proof {
        reveal_with_fuel(read_fields, 5);
    }
    let channel = optional_field(raw, "Channel");
    let variable = match text_field(raw, "Variable") {
        Some(v) => v,
        None => return malformed(raw, event_name, "Variable"),
    };
    let value = match text_field(raw, "Value") {
        Some(v) => v,
        None => return malformed(raw, event_name, "Value"),
    };
    let unique_id = optional_field(raw, "Uniqueid");
    AmiEvent::VarSet { channel, variable, value, unique_id }
}

/// Reads a `Hold` event.
fn parse_hold(raw: &RawAmiMessage, event_name: &str) -> (r: AmiEvent)
    ensures
        r@ == typed_view(raw@, event_name@, EventKind::Hold, hold_fields()),
{
    proof {
        reveal_with_fuel(read_fields, 4);
    }
    let channel = match text_field(raw, "Channel") {
        Some(v) => v,
        None => return malformed(raw, event_name, "Channel"),
    };
    let unique_id = match text_field(raw, "Uniqueid") {
        Some(v) => v,
        None => return malformed(raw, event_name, "Uniqueid"),
    };
    let music_class = optional_field(raw, "MusicClass");
    AmiEvent::Hold { channel, unique_id, music_class }
}

/// Reads a `Unhold` event.
fn parse_unhold(raw: &RawAmiMessage, event_name: &str) -> (r: AmiEvent)
    ensures
        r@ == typed_view(raw@, event_name@, EventKind::Unhold, unhold_fields()),
{
    proof {
        reveal_with_fuel(read_fields, 3);
    }
    let channel = match text_field(raw, "Channel") {
        Some(v) => v,
        None => return malformed(raw, event_name, "Channel"),
    };
    let unique_id = match text_field(raw, "Uniqueid") {
        Some(v) => v,
        None => return malformed(raw, event_name, "Uniqueid"),
    };
    AmiEvent::Unhold { channel, unique_id }
}

/// Reads a `HangupRequest` event.
fn parse_hangup_request(raw: &RawAmiMessage, event_name: &str) -> (r: AmiEvent)
    ensures
        r@ == typed_view(raw@, event_name@, EventKind::HangupRequest, hangup_request_fields()),
{
    proof {
        reveal_with_fuel(read_fields, 4);
    }
    let channel = match text_field(raw, "Channel") {
        Some(v) => v,
        None => return malformed(raw, event_name, "Channel"),
    };
    let unique_id = match text_field(raw, "Uniqueid") {
        Some(v) => v,
        None => return malformed(raw, event_name, "Uniqueid"),
    };
    let cause = match number_field(raw, "Cause") {
        Some(v) => v,
        None => return malformed(raw, event_name, "Cause"),
    };
    AmiEvent::HangupRequest { channel, unique_id, cause }
}

/// Reads a `SoftHangupRequest` event.
fn parse_soft_hangup_request(raw: &RawAmiMessage, event_name: &str) -> (r: AmiEvent)
    ensures
        r@ == typed_view(raw@, event_name@, EventKind::SoftHangupRequest, soft_hangup_request_fields()),
{
    proof {
        reveal_with_fuel(read_fields, 4);
    }
    let channel = match text_field(raw, "Channel") {
        Some(v) => v,
        None => return malformed(raw, event_name, "Channel"),
    };
    let unique_id = match text_field(raw, "Uniqueid") {
        Some(v) => v,
        None => return malformed(raw, event_name, "Uniqueid"),
    };
    let cause = match number_field(raw, "Cause") {
        Some(v) => v,
        None => return malformed(raw, event_name, "Cause"),
    };
    AmiEvent::SoftHangupRequest { channel, unique_id, cause }
}

/// Reads a `NewExten` event.
fn parse_new_exten(raw: &RawAmiMessage, event_name: &str) -> (r: AmiEvent)
    ensures
        r@ == typed_view(raw@, event_name@, EventKind::NewExten, new_exten_fields()),
{
    proof {
        reveal_with_fuel(read_fields, 8);
    }
    let channel = match text_field(raw, "Channel") {
        Some(v) => v,
        None => return malformed(raw, event_name, "Channel"),
    };
    let context = match text_field(raw, "Context") {
        Some(v) => v,
        None => return malformed(raw, event_name, "Context"),
    };
    let extension = match text_field(raw, "Extension") {
        Some(v) => v,
        None => return malformed(raw, event_name, "Extension"),
    };
    let priority = match number_field(raw, "Priority") {
        Some(v) => v,
        None => return malformed(raw, event_name, "Priority"),
    };
    let application = match text_field(raw, "Application") {
        Some(v) => v,
        None => return malformed(raw, event_name, "Application"),
    };
    let app_data = match text_field(raw, "AppData") {
        Some(v) => v,
        None => return malformed(raw, event_name, "AppData"),
    };
    let unique_id = match text_field(raw, "Uniqueid") {
        Some(v) => v,
        None => return malformed(raw, event_name, "Uniqueid"),
    };
    AmiEvent::NewExten { channel, context, extension, priority, application, app_data, unique_id }
}

/// Reads a `NewCallerid` event.
fn parse_new_callerid(raw: &RawAmiMessage, event_name: &str) -> (r: AmiEvent)
    ensures
        r@ == typed_view(raw@, event_name@, EventKind::NewCallerid, new_callerid_fields()),
{
    proof {
        reveal_with_fuel(read_fields, 6);
    }
    let channel = match text_field(raw, "Channel") {
        Some(v) => v,
        None => return malformed(raw, event_name, "Channel"),
    };
    let caller_id_num = match text_field(raw, "CallerIDNum") {
        Some(v) => v,
        None => return malformed(raw, event_name, "CallerIDNum"),
    };
    let caller_id_name = match text_field(raw, "CallerIDName") {
        Some(v) => v,
        None => return malformed(raw, event_name, "CallerIDName"),
    };
    let unique_id = match text_field(raw, "Uniqueid") {
        Some(v) => v,
        None => return malformed(raw, event_name, "Uniqueid"),
    };
    let cid_calling_pres = match text_field(raw, "CID-CallingPres") {
        Some(v) => v,
        None => return malformed(raw, event_name, "CID-CallingPres"),
    };
    AmiEvent::NewCallerid { channel, caller_id_num, caller_id_name, unique_id, cid_calling_pres }
}

/// Reads a `NewConnectedLine` event.
fn parse_new_connected_line(raw: &RawAmiMessage, event_name: &str) -> (r: AmiEvent)
    ensures
        r@ == typed_view(raw@, event_name@, EventKind::NewConnectedLine, new_connected_line_fields()),
{
    proof {
        reveal_with_fuel(read_fields, 5);
    }
    let channel = match text_field(raw, "Channel") {
        Some(v) => v,
        None => return malformed(raw, event_name, "Channel"),
    };
    let unique_id = match text_field(raw, "Uniqueid") {
        Some(v) => v,
        None => return malformed(raw, event_name, "Uniqueid"),
    };
    let connected_line_num = match text_field(raw, "ConnectedLineNum") {
        Some(v) => v,
        None => return malformed(raw, event_name, "ConnectedLineNum"),
    };
    let connected_line_name = match text_field(raw, "ConnectedLineName") {
        Some(v) => v,
        None => return malformed(raw, event_name, "ConnectedLineName"),
    };
    AmiEvent::NewConnectedLine { channel, unique_id, connected_line_num, connected_line_name }
}

/// Reads a `NewAccountCode` event.
fn parse_new_account_code(raw: &RawAmiMessage, event_name: &str) -> (r: AmiEvent)
    ensures
        r@ == typed_view(raw@, event_name@, EventKind::NewAccountCode, new_account_code_fields()),
{
    proof {
        reveal_with_fuel(read_fields, 5);
    }
    let channel = match text_field(raw, "Channel") {
        Some(v) => v,
        None => return malformed(raw, event_name, "Channel"),
    };
    let unique_id = match text_field(raw, "Uniqueid") {
        Some(v) => v,
        None => return malformed(raw, event_name, "Uniqueid"),
    };
    let account_code = match text_field(raw, "AccountCode") {
        Some(v) => v,
        None => return malformed(raw, event_name, "AccountCode"),
    };
    let old_account_code = match text_field(raw, "OldAccountCode") {
        Some(v) => v,
        None => return malformed(raw, event_name, "OldAccountCode"),
    };
    AmiEvent::NewAccountCode { channel, unique_id, account_code, old_account_code }
}

/// Reads a `Rename` event.
fn parse_rename(raw: &RawAmiMessage, event_name: &str) -> (r: AmiEvent)
    ensures
        r@ == typed_view(raw@, event_name@, EventKind::Rename, rename_fields()),
{
    proof {
        reveal_with_fuel(read_fields, 4);
    }
    let channel = match text_field(raw, "Channel") {
        Some(v) => v,
        None => return malformed(raw, event_name, "Channel"),
    };
    let new_name = match text_field(raw, "Newname") {
        Some(v) => v,
        None => return malformed(raw, event_name, "Newname"),
    };
    let unique_id = match text_field(raw, "Uniqueid") {
        Some(v) => v,
        None => return malformed(raw, event_name, "Uniqueid"),
    };
    AmiEvent::Rename { channel, new_name, unique_id }
}

/// Reads a `OriginateResponse` event.
fn parse_originate_response(raw: &RawAmiMessage, event_name: &str) -> (r: AmiEvent)
    ensures
        r@ == typed_view(raw@, event_name@, EventKind::OriginateResponse, originate_response_fields()),
{
    proof {
        reveal_with_fuel(read_fields, 6);
    }
    let action_id = optional_field(raw, "ActionID");
    let channel = match text_field(raw, "Channel") {
        Some(v) => v,
        None => return malformed(raw, event_name, "Channel"),
    };
    let unique_id = match text_field(raw, "Uniqueid") {
        Some(v) => v,
        None => return malformed(raw, event_name, "Uniqueid"),
    };
    let response = match text_field(raw, "Response") {
        Some(v) => v,
        None => return malformed(raw, event_name, "Response"),
    };
    let reason = match text_field(raw, "Reason") {
        Some(v) => v,
        None => return malformed(raw, event_name, "Reason"),
    };
    AmiEvent::OriginateResponse { action_id, channel, unique_id, response, reason }
}

/// Reads a `DialState` event.
fn parse_dial_state(raw: &RawAmiMessage, event_name: &str) -> (r: AmiEvent)
    ensures
        r@ == typed_view(raw@, event_name@, EventKind::DialState, dial_state_fields()),
{
    proof {
        reveal_with_fuel(read_fields, 6);
    }
    let channel = match text_field(raw, "Channel") {
        Some(v) => v,
        None => return malformed(raw, event_name, "Channel"),
    };
    let destination = match text_field(raw, "DestChannel") {
        Some(v) => v,
        None => return malformed(raw, event_name, "DestChannel"),
    };
    let dial_status = match text_field(raw, "DialStatus") {
        Some(v) => v,
        None => return malformed(raw, event_name, "DialStatus"),
    };
    let unique_id = match text_field(raw, "Uniqueid") {
        Some(v) => v,
        None => return malformed(raw, event_name, "Uniqueid"),
    };
    let dest_unique_id = match text_field(raw, "DestUniqueid") {
        Some(v) => v,
        None => return malformed(raw, event_name, "DestUniqueid"),
    };
    AmiEvent::DialState { channel, destination, dial_status, unique_id, dest_unique_id }
}

/// Reads a `Flash` event.
fn parse_flash(raw: &RawAmiMessage, event_name: &str) -> (r: AmiEvent)
    ensures
        r@ == typed_view(raw@, event_name@, EventKind::Flash, flash_fields()),
{
    proof {
        reveal_with_fuel(read_fields, 3);
    }
    let channel = match text_field(raw, "Channel") {
        Some(v) => v,
        None => return malformed(raw, event_name, "Channel"),
    };
    let unique_id = match text_field(raw, "Uniqueid") {
        Some(v) => v,
        None => return malformed(raw, event_name, "Uniqueid"),
    };
    AmiEvent::Flash { channel, unique_id }
}

/// Reads a `Wink` event.
fn parse_wink(raw: &RawAmiMessage, event_name: &str) -> (r: AmiEvent)
    ensures
        r@ == typed_view(raw@, event_name@, EventKind::Wink, wink_fields()),
{
    proof {
        reveal_with_fuel(read_fields, 3);
    }
    let channel = match text_field(raw, "Channel") {
        Some(v) => v,
        None => return malformed(raw, event_name, "Channel"),
    };
    let unique_id = match text_field(raw, "Uniqueid") {
        Some(v) => v,
        None => return malformed(raw, event_name, "Uniqueid"),
    };
    AmiEvent::Wink { channel, unique_id }
}

/// Reads a `UserEvent` event.
fn parse_user_event(raw: &RawAmiMessage, event_name: &str) -> (r: AmiEvent)
    ensures
        r@ == typed_view(raw@, event_name@, EventKind::UserEvent, user_event_fields()),
{
    proof {
        reveal_with_fuel(read_fields, 5);
    }
    let channel = optional_field(raw, "Channel");
    let unique_id = optional_field(raw, "Uniqueid");
    let user_event = match text_field(raw, "UserEvent") {
        Some(v) => v,
        None => return malformed(raw, event_name, "UserEvent"),
    };
    let headers = raw.to_map();
    AmiEvent::UserEvent { channel, unique_id, user_event, headers }
}

/// Reads a `AttendedTransfer` event.
fn parse_attended_transfer(raw: &RawAmiMessage, event_name: &str) -> (r: AmiEvent)
    ensures
        r@ == typed_view(raw@, event_name@, EventKind::AttendedTransfer, attended_transfer_fields()),
{
    proof {
        reveal_with_fuel(read_fields, 6);
    }
    let result = match text_field(raw, "Result") {
        Some(v) => v,
        None => return malformed(raw, event_name, "Result"),
    };
    let transferer_channel = match text_field(raw, "TransfererChannel") {
        Some(v) => v,
        None => return malformed(raw, event_name, "TransfererChannel"),
    };
    let transferer_unique_id = match text_field(raw, "TransfererUniqueid") {
        Some(v) => v,
        None => return malformed(raw, event_name, "TransfererUniqueid"),
    };
    let transferee_channel = match text_field(raw, "TransfereeChannel") {
        Some(v) => v,
        None => return malformed(raw, event_name, "TransfereeChannel"),
    };
    let transferee_unique_id = match text_field(raw, "TransfereeUniqueid") {
        Some(v) => v,
        None => return malformed(raw, event_name, "TransfereeUniqueid"),
    };
    AmiEvent::AttendedTransfer { result, transferer_channel, transferer_unique_id, transferee_channel, transferee_unique_id }
}

/// Reads a `BlindTransfer` event.
fn parse_blind_transfer(raw: &RawAmiMessage, event_name: &str) -> (r: AmiEvent)
    ensures
        r@ == typed_view(raw@, event_name@, EventKind::BlindTransfer, blind_transfer_fields()),
{
    proof {
        reveal_with_fuel(read_fields, 6);
    }
    let result = match text_field(raw, "Result") {
        Some(v) => v,
        None => return malformed(raw, event_name, "Result"),
    };
    let transferer_channel = match text_field(raw, "TransfererChannel") {
        Some(v) => v,
        None => return malformed(raw, event_name, "TransfererChannel"),
    };
    let transferer_unique_id = match text_field(raw, "TransfererUniqueid") {
        Some(v) => v,
        None => return malformed(raw, event_name, "TransfererUniqueid"),
    };
    let extension = match text_field(raw, "Extension") {
        Some(v) => v,
        None => return malformed(raw, event_name, "Extension"),
    };
    let context = match text_field(raw, "Context") {
        Some(v) => v,
        None => return malformed(raw, event_name, "Context"),
    };
    AmiEvent::BlindTransfer { result, transferer_channel, transferer_unique_id, extension, context }
}

/// Reads a `BridgeMerge` event.
fn parse_bridge_merge(raw: &RawAmiMessage, event_name: &str) -> (r: AmiEvent)
    ensures
        r@ == typed_view(raw@, event_name@, EventKind::BridgeMerge, bridge_merge_fields()),
{
    proof {
        reveal_with_fuel(read_fields, 4);
    }
    let bridge_unique_id = match text_field(raw, "BridgeUniqueid") {
        Some(v) => v,
        None => return malformed(raw, event_name, "BridgeUniqueid"),
    };
    let bridge_type = match text_field(raw, "BridgeType") {
        Some(v) => v,
        None => return malformed(raw, event_name, "BridgeType"),
    };
    let to_bridge_unique_id = match text_field(raw, "ToBridgeUniqueid") {
        Some(v) => v,
        None => return malformed(raw, event_name, "ToBridgeUniqueid"),
    };
    AmiEvent::BridgeMerge { bridge_unique_id, bridge_type, to_bridge_unique_id }
}

/// Reads a `BridgeInfoChannel` event.
fn parse_bridge_info_channel(raw: &RawAmiMessage, event_name: &str) -> (r: AmiEvent)
    ensures
        r@ == typed_view(raw@, event_name@, EventKind::BridgeInfoChannel, bridge_info_channel_fields()),
{
    proof {
        reveal_with_fuel(read_fields, 4);
    }
    let bridge_unique_id = match text_field(raw, "BridgeUniqueid") {
        Some(v) => v,
        None => return malformed(raw, event_name, "BridgeUniqueid"),
    };
    let channel = match text_field(raw, "Channel") {
        Some(v) => v,
        None => return malformed(raw, event_name, "Channel"),
    };
    let unique_id = match text_field(raw, "Uniqueid") {
        Some(v) => v,
        None => return malformed(raw, event_name, "Uniqueid"),
    };
    AmiEvent::BridgeInfoChannel { bridge_unique_id, channel, unique_id }
}

/// Reads a `BridgeInfoComplete` event.
fn parse_bridge_info_complete(raw: &RawAmiMessage, event_name: &str) -> (r: AmiEvent)
    ensures
        r@ == typed_view(raw@, event_name@, EventKind::BridgeInfoComplete, bridge_info_complete_fields()),
{
    proof {
        reveal_with_fuel(read_fields, 2);
    }
    let bridge_unique_id = match text_field(raw, "BridgeUniqueid") {
        Some(v) => v,
        None => return malformed(raw, event_name, "BridgeUniqueid"),
    };
    AmiEvent::BridgeInfoComplete { bridge_unique_id }
}

/// Reads a `BridgeVideoSourceUpdate` event.
fn parse_bridge_video_source_update(raw: &RawAmiMessage, event_name: &str) -> (r: AmiEvent)
    ensures
        r@ == typed_view(raw@, event_name@, EventKind::BridgeVideoSourceUpdate, bridge_video_source_update_fields()),
{
    proof {
        reveal_with_fuel(read_fields, 3);
    }
    let bridge_unique_id = match text_field(raw, "BridgeUniqueid") {
        Some(v) => v,
        None => return malformed(raw, event_name, "BridgeUniqueid"),
    };
    let bridge_video_source_unique_id = match text_field(raw, "BridgeVideoSourceUniqueid") {
        Some(v) => v,
        None => return malformed(raw, event_name, "BridgeVideoSourceUniqueid"),
    };
    AmiEvent::BridgeVideoSourceUpdate { bridge_unique_id, bridge_video_source_unique_id }
}

/// Reads a `LocalBridge` event.
fn parse_local_bridge(raw: &RawAmiMessage, event_name: &str) -> (r: AmiEvent)
    ensures
        r@ == typed_view(raw@, event_name@, EventKind::LocalBridge, local_bridge_fields()),
{
    proof {
        reveal_with_fuel(read_fields, 5);
    }
    let channel = match text_field(raw, "Channel") {
        Some(v) => v,
        None => return malformed(raw, event_name, "Channel"),
    };
    let unique_id = match text_field(raw, "Uniqueid") {
        Some(v) => v,
        None => return malformed(raw, event_name, "Uniqueid"),
    };
    let context = match text_field(raw, "Context") {
        Some(v) => v,
        None => return malformed(raw, event_name, "Context"),
    };
    let exten = match text_field(raw, "Exten") {
        Some(v) => v,
        None => return malformed(raw, event_name, "Exten"),
    };
    AmiEvent::LocalBridge { channel, unique_id, context, exten }
}

/// Reads a `LocalOptimizationBegin` event.
fn parse_local_optimization_begin(raw: &RawAmiMessage, event_name: &str) -> (r: AmiEvent)
    ensures
        r@ == typed_view(raw@, event_name@, EventKind::LocalOptimizationBegin, local_optimization_begin_fields()),
{
    proof {
        reveal_with_fuel(read_fields, 5);
    }
    let channel = match text_field(raw, "Channel") {
        Some(v) => v,
        None => return malformed(raw, event_name, "Channel"),
    };
    let unique_id = match text_field(raw, "Uniqueid") {
        Some(v) => v,
        None => return malformed(raw, event_name, "Uniqueid"),
    };
    let source_unique_id = match text_field(raw, "SourceUniqueid") {
        Some(v) => v,
        None => return malformed(raw, event_name, "SourceUniqueid"),
    };
    let dest_unique_id = match text_field(raw, "DestUniqueid") {
        Some(v) => v,
        None => return malformed(raw, event_name, "DestUniqueid"),
    };
    AmiEvent::LocalOptimizationBegin { channel, unique_id, source_unique_id, dest_unique_id }
}

/// Reads a `LocalOptimizationEnd` event.
fn parse_local_optimization_end(raw: &RawAmiMessage, event_name: &str) -> (r: AmiEvent)
    ensures
        r@ == typed_view(raw@, event_name@, EventKind::LocalOptimizationEnd, local_optimization_end_fields()),
{
    proof {
        reveal_with_fuel(read_fields, 3);
    }
    let channel = match text_field(raw, "Channel") {
        Some(v) => v,
        None => return malformed(raw, event_name, "Channel"),
    };
    let unique_id = match text_field(raw, "Uniqueid") {
        Some(v) => v,
        None => return malformed(raw, event_name, "Uniqueid"),
    };
    AmiEvent::LocalOptimizationEnd { channel, unique_id }
}

/// Reads a `Cdr` event.
fn parse_cdr(raw: &RawAmiMessage, event_name: &str) -> (r: AmiEvent)
    ensures
        r@ == typed_view(raw@, event_name@, EventKind::Cdr, cdr_fields()),
{
    proof {
        reveal_with_fuel(read_fields, 10);
    }
    let channel = match text_field(raw, "Channel") {
        Some(v) => v,
        None => return malformed(raw, event_name, "Channel"),
    };
    let unique_id = match text_field(raw, "Uniqueid") {
        Some(v) => v,
        None => return malformed(raw, event_name, "Uniqueid"),
    };
    let destination = match text_field(raw, "Destination") {
        Some(v) => v,
        None => return malformed(raw, event_name, "Destination"),
    };
    let disposition = match text_field(raw, "Disposition") {
        Some(v) => v,
        None => return malformed(raw, event_name, "Disposition"),
    };
    let duration = match number_field(raw, "Duration") {
        Some(v) => v,
        None => return malformed(raw, event_name, "Duration"),
    };
    let billable_seconds = match number_field(raw, "BillableSeconds") {
        Some(v) => v,
        None => return malformed(raw, event_name, "BillableSeconds"),
    };
    let account_code = match text_field(raw, "AccountCode") {
        Some(v) => v,
        None => return malformed(raw, event_name, "AccountCode"),
    };
    let source = match text_field(raw, "Source") {
        Some(v) => v,
        None => return malformed(raw, event_name, "Source"),
    };
    let destination_context = match text_field(raw, "DestinationContext") {
        Some(v) => v,
        None => return malformed(raw, event_name, "DestinationContext"),
    };
    AmiEvent::Cdr { channel, unique_id, destination, disposition, duration, billable_seconds, account_code, source, destination_context }
}

/// Reads a `CEL` event.
fn parse_cel(raw: &RawAmiMessage, event_name: &str) -> (r: AmiEvent)
    ensures
        r@ == typed_view(raw@, event_name@, EventKind::Cel, cel_fields()),
{
    proof {
        reveal_with_fuel(read_fields, 7);
    }
    let channel = match text_field(raw, "Channel") {
        Some(v) => v,
        None => return malformed(raw, event_name, "Channel"),
    };
    let unique_id = match text_field(raw, "Uniqueid") {
        Some(v) => v,
        None => return malformed(raw, event_name, "Uniqueid"),
    };
    let event_name_cel = match text_field(raw, "EventName") {
        Some(v) => v,
        None => return malformed(raw, event_name, "EventName"),
    };
    let account_code = match text_field(raw, "AccountCode") {
        Some(v) => v,
        None => return malformed(raw, event_name, "AccountCode"),
    };
    let application_name = match text_field(raw, "ApplicationName") {
        Some(v) => v,
        None => return malformed(raw, event_name, "ApplicationName"),
    };
    let application_data = match text_field(raw, "ApplicationData") {
        Some(v) => v,
        None => return malformed(raw, event_name, "ApplicationData"),
    };
    AmiEvent::Cel { channel, unique_id, event_name_cel, account_code, application_name, application_data }
}

/// Reads a `QueueCallerAbandon` event.
fn parse_queue_caller_abandon(raw: &RawAmiMessage, event_name: &str) -> (r: AmiEvent)
    ensures
        r@ == typed_view(raw@, event_name@, EventKind::QueueCallerAbandon, queue_caller_abandon_fields()),
{
    proof {
        reveal_with_fuel(read_fields, 7);
    }
    let channel = match text_field(raw, "Channel") {
        Some(v) => v,
        None => return malformed(raw, event_name, "Channel"),
    };
    let unique_id = match text_field(raw, "Uniqueid") {
        Some(v) => v,
        None => return malformed(raw, event_name, "Uniqueid"),
    };
    let queue = match text_field(raw, "Queue") {
        Some(v) => v,
        None => return malformed(raw, event_name, "Queue"),
    };
    let position = match number_field(raw, "Position") {
        Some(v) => v,
        None => return malformed(raw, event_name, "Position"),
    };
    let original_position = match number_field(raw, "OriginalPosition") {
        Some(v) => v,
        None => return malformed(raw, event_name, "OriginalPosition"),
    };
    let hold_time = match number_field(raw, "HoldTime") {
        Some(v) => v,
        None => return malformed(raw, event_name, "HoldTime"),
    };
    AmiEvent::QueueCallerAbandon { channel, unique_id, queue, position, original_position, hold_time }
}

/// Reads a `QueueCallerJoin` event.
fn parse_queue_caller_join(raw: &RawAmiMessage, event_name: &str) -> (r: AmiEvent)
    ensures
        r@ == typed_view(raw@, event_name@, EventKind::QueueCallerJoin, queue_caller_join_fields()),
{
    proof {
        reveal_with_fuel(read_fields, 6);
    }
    let channel = match text_field(raw, "Channel") {
        Some(v) => v,
        None => return malformed(raw, event_name, "Channel"),
    };
    let unique_id = match text_field(raw, "Uniqueid") {
        Some(v) => v,
        None => return malformed(raw, event_name, "Uniqueid"),
    };
    let queue = match text_field(raw, "Queue") {
        Some(v) => v,
        None => return malformed(raw, event_name, "Queue"),
    };
    let position = match number_field(raw, "Position") {
        Some(v) => v,
        None => return malformed(raw, event_name, "Position"),
    };
    let count = match number_field(raw, "Count") {
        Some(v) => v,
        None => return malformed(raw, event_name, "Count"),
    };
    AmiEvent::QueueCallerJoin { channel, unique_id, queue, position, count }
}

/// Reads a `QueueCallerLeave` event.
fn parse_queue_caller_leave(raw: &RawAmiMessage, event_name: &str) -> (r: AmiEvent)
    ensures
        r@ == typed_view(raw@, event_name@, EventKind::QueueCallerLeave, queue_caller_leave_fields()),
{
    proof {
        reveal_with_fuel(read_fields, 6);
    }
    let channel = match text_field(raw, "Channel") {
        Some(v) => v,
        None => return malformed(raw, event_name, "Channel"),
    };
    let unique_id = match text_field(raw, "Uniqueid") {
        Some(v) => v,
        None => return malformed(raw, event_name, "Uniqueid"),
    };
    let queue = match text_field(raw, "Queue") {
        Some(v) => v,
        None => return malformed(raw, event_name, "Queue"),
    };
    let position = match number_field(raw, "Position") {
        Some(v) => v,
        None => return malformed(raw, event_name, "Position"),
    };
    let count = match number_field(raw, "Count") {
        Some(v) => v,
        None => return malformed(raw, event_name, "Count"),
    };
    AmiEvent::QueueCallerLeave { channel, unique_id, queue, position, count }
}

/// Reads a `QueueMemberAdded` event.
fn parse_queue_member_added(raw: &RawAmiMessage, event_name: &str) -> (r: AmiEvent)
    ensures
        r@ == typed_view(raw@, event_name@, EventKind::QueueMemberAdded, queue_member_added_fields()),
{
    proof {
        reveal_with_fuel(read_fields, 8);
    }
    let queue = match text_field(raw, "Queue") {
        Some(v) => v,
        None => return malformed(raw, event_name, "Queue"),
    };
    let member_name = match text_field(raw, "MemberName") {
        Some(v) => v,
        None => return malformed(raw, event_name, "MemberName"),
    };
    let interface = match text_field(raw, "Interface") {
        Some(v) => v,
        None => return malformed(raw, event_name, "Interface"),
    };
    let state_interface = match text_field(raw, "StateInterface") {
        Some(v) => v,
        None => return malformed(raw, event_name, "StateInterface"),
    };
    let membership = match text_field(raw, "Membership") {
        Some(v) => v,
        None => return malformed(raw, event_name, "Membership"),
    };
    let penalty = match number_field(raw, "Penalty") {
        Some(v) => v,
        None => return malformed(raw, event_name, "Penalty"),
    };
    let paused = match text_field(raw, "Paused") {
        Some(v) => v,
        None => return malformed(raw, event_name, "Paused"),
    };
    AmiEvent::QueueMemberAdded { queue, member_name, interface, state_interface, membership, penalty, paused }
}

/// Reads a `QueueMemberRemoved` event.
fn parse_queue_member_removed(raw: &RawAmiMessage, event_name: &str) -> (r: AmiEvent)
    ensures
        r@ == typed_view(raw@, event_name@, EventKind::QueueMemberRemoved, queue_member_removed_fields()),
{
    proof {
        reveal_with_fuel(read_fields, 4);
    }
    let queue = match text_field(raw, "Queue") {
        Some(v) => v,
        None => return malformed(raw, event_name, "Queue"),
    };
    let member_name = match text_field(raw, "MemberName") {
        Some(v) => v,
        None => return malformed(raw, event_name, "MemberName"),
    };
    let interface = match text_field(raw, "Interface") {
        Some(v) => v,
        None => return malformed(raw, event_name, "Interface"),
    };
    AmiEvent::QueueMemberRemoved { queue, member_name, interface }
}

/// Reads a `QueueMemberPause` event.
fn parse_queue_member_pause(raw: &RawAmiMessage, event_name: &str) -> (r: AmiEvent)
    ensures
        r@ == typed_view(raw@, event_name@, EventKind::QueueMemberPause, queue_member_pause_fields()),
{
    proof {
        reveal_with_fuel(read_fields, 6);
    }
    let queue = match text_field(raw, "Queue") {
        Some(v) => v,
        None => return malformed(raw, event_name, "Queue"),
    };
    let member_name = match text_field(raw, "MemberName") {
        Some(v) => v,
        None => return malformed(raw, event_name, "MemberName"),
    };
    let interface = match text_field(raw, "Interface") {
        Some(v) => v,
        None => return malformed(raw, event_name, "Interface"),
    };
    let paused = match text_field(raw, "Paused") {
        Some(v) => v,
        None => return malformed(raw, event_name, "Paused"),
    };
    let reason = match text_field(raw, "Reason") {
        Some(v) => v,
        None => return malformed(raw, event_name, "Reason"),
    };
    AmiEvent::QueueMemberPause { queue, member_name, interface, paused, reason }
}

/// Reads a `QueueMemberStatus` event.
fn parse_queue_member_status(raw: &RawAmiMessage, event_name: &str) -> (r: AmiEvent)
    ensures
        r@ == typed_view(raw@, event_name@, EventKind::QueueMemberStatus, queue_member_status_fields()),
{
    proof {
        reveal_with_fuel(read_fields, 7);
    }
    let queue = match text_field(raw, "Queue") {
        Some(v) => v,
        None => return malformed(raw, event_name, "Queue"),
    };
    let member_name = match text_field(raw, "MemberName") {
        Some(v) => v,
        None => return malformed(raw, event_name, "MemberName"),
    };
    let interface = match text_field(raw, "Interface") {
        Some(v) => v,
        None => return malformed(raw, event_name, "Interface"),
    };
    let status = match number_field(raw, "Status") {
        Some(v) => v,
        None => return malformed(raw, event_name, "Status"),
    };
    let paused = match text_field(raw, "Paused") {
        Some(v) => v,
        None => return malformed(raw, event_name, "Paused"),
    };
    let calls_taken = match number_field(raw, "CallsTaken") {
        Some(v) => v,
        None => return malformed(raw, event_name, "CallsTaken"),
    };
    AmiEvent::QueueMemberStatus { queue, member_name, interface, status, paused, calls_taken }
}

/// Reads a `QueueMemberPenalty` event.
fn parse_queue_member_penalty(raw: &RawAmiMessage, event_name: &str) -> (r: AmiEvent)
    ensures
        r@ == typed_view(raw@, event_name@, EventKind::QueueMemberPenalty, queue_member_penalty_fields()),
{
    proof {
        reveal_with_fuel(read_fields, 5);
    }
    let queue = match text_field(raw, "Queue") {
        Some(v) => v,
        None => return malformed(raw, event_name, "Queue"),
    };
    let member_name = match text_field(raw, "MemberName") {
        Some(v) => v,
        None => return malformed(raw, event_name, "MemberName"),
    };
    let interface = match text_field(raw, "Interface") {
        Some(v) => v,
        None => return malformed(raw, event_name, "Interface"),
    };
    let penalty = match number_field(raw, "Penalty") {
        Some(v) => v,
        None => return malformed(raw, event_name, "Penalty"),
    };
    AmiEvent::QueueMemberPenalty { queue, member_name, interface, penalty }
}

/// Reads a `QueueMemberRinginuse` event.
fn parse_queue_member_ringinuse(raw: &RawAmiMessage, event_name: &str) -> (r: AmiEvent)
    ensures
        r@ == typed_view(raw@, event_name@, EventKind::QueueMemberRinginuse, queue_member_ringinuse_fields()),
{
    proof {
        reveal_with_fuel(read_fields, 5);
    }
    let queue = match text_field(raw, "Queue") {
        Some(v) => v,
        None => return malformed(raw, event_name, "Queue"),
    };
    let member_name = match text_field(raw, "MemberName") {
        Some(v) => v,
        None => return malformed(raw, event_name, "MemberName"),
    };
    let interface = match text_field(raw, "Interface") {
        Some(v) => v,
        None => return malformed(raw, event_name, "Interface"),
    };
    let ringinuse = match text_field(raw, "Ringinuse") {
        Some(v) => v,
        None => return malformed(raw, event_name, "Ringinuse"),
    };
    AmiEvent::QueueMemberRinginuse { queue, member_name, interface, ringinuse }
}

/// Reads a `QueueParams` event.
fn parse_queue_params(raw: &RawAmiMessage, event_name: &str) -> (r: AmiEvent)
    ensures
        r@ == typed_view(raw@, event_name@, EventKind::QueueParams, queue_params_fields()),
{
    proof {
        reveal_with_fuel(read_fields, 9);
    }
    let queue = match text_field(raw, "Queue") {
        Some(v) => v,
        None => return malformed(raw, event_name, "Queue"),
    };
    let max = match number_field(raw, "Max") {
        Some(v) => v,
        None => return malformed(raw, event_name, "Max"),
    };
    let strategy = match text_field(raw, "Strategy") {
        Some(v) => v,
        None => return malformed(raw, event_name, "Strategy"),
    };
    let calls = match number_field(raw, "Calls") {
        Some(v) => v,
        None => return malformed(raw, event_name, "Calls"),
    };
    let holdtime = match number_field(raw, "Holdtime") {
        Some(v) => v,
        None => return malformed(raw, event_name, "Holdtime"),
    };
    let talktime = match number_field(raw, "Talktime") {
        Some(v) => v,
        None => return malformed(raw, event_name, "Talktime"),
    };
    let completed = match number_field(raw, "Completed") {
        Some(v) => v,
        None => return malformed(raw, event_name, "Completed"),
    };
    let abandoned = match number_field(raw, "Abandoned") {
        Some(v) => v,
        None => return malformed(raw, event_name, "Abandoned"),
    };
    AmiEvent::QueueParams { queue, max, strategy, calls, holdtime, talktime, completed, abandoned }
}

/// Reads a `QueueEntry` event.
fn parse_queue_entry(raw: &RawAmiMessage, event_name: &str) -> (r: AmiEvent)
    ensures
        r@ == typed_view(raw@, event_name@, EventKind::QueueEntry, queue_entry_fields()),
{
    proof {
        reveal_with_fuel(read_fields, 8);
    }
    let queue = match text_field(raw, "Queue") {
        Some(v) => v,
        None => return malformed(raw, event_name, "Queue"),
    };
    let position = match number_field(raw, "Position") {
        Some(v) => v,
        None => return malformed(raw, event_name, "Position"),
    };
    let channel = match text_field(raw, "Channel") {
        Some(v) => v,
        None => return malformed(raw, event_name, "Channel"),
    };
    let unique_id = match text_field(raw, "Uniqueid") {
        Some(v) => v,
        None => return malformed(raw, event_name, "Uniqueid"),
    };
    let caller_id_num = match text_field(raw, "CallerIDNum") {
        Some(v) => v,
        None => return malformed(raw, event_name, "CallerIDNum"),
    };
    let caller_id_name = match text_field(raw, "CallerIDName") {
        Some(v) => v,
        None => return malformed(raw, event_name, "CallerIDName"),
    };
    let wait = match number_field(raw, "Wait") {
        Some(v) => v,
        None => return malformed(raw, event_name, "Wait"),
    };
    AmiEvent::QueueEntry { queue, position, channel, unique_id, caller_id_num, caller_id_name, wait }
}

/// Reads a `AgentCalled` event.
fn parse_agent_called(raw: &RawAmiMessage, event_name: &str) -> (r: AmiEvent)
    ensures
        r@ == typed_view(raw@, event_name@, EventKind::AgentCalled, agent_called_fields()),
{
    proof {
        reveal_with_fuel(read_fields, 6);
    }
    let channel = match text_field(raw, "Channel") {
        Some(v) => v,
        None => return malformed(raw, event_name, "Channel"),
    };
    let unique_id = match text_field(raw, "Uniqueid") {
        Some(v) => v,
        None => return malformed(raw, event_name, "Uniqueid"),
    };
    let queue = match text_field(raw, "Queue") {
        Some(v) => v,
        None => return malformed(raw, event_name, "Queue"),
    };
    let agent = match text_field(raw, "Agent") {
        Some(v) => v,
        None => return malformed(raw, event_name, "Agent"),
    };
    let destination_channel = match text_field(raw, "DestinationChannel") {
        Some(v) => v,
        None => return malformed(raw, event_name, "DestinationChannel"),
    };
    AmiEvent::AgentCalled { channel, unique_id, queue, agent, destination_channel }
}

/// Reads a `AgentConnect` event.
fn parse_agent_connect(raw: &RawAmiMessage, event_name: &str) -> (r: AmiEvent)
    ensures
        r@ == typed_view(raw@, event_name@, EventKind::AgentConnect, agent_connect_fields()),
{
    proof {
        reveal_with_fuel(read_fields, 7);
    }
    let channel = match text_field(raw, "Channel") {
        Some(v) => v,
        None => return malformed(raw, event_name, "Channel"),
    };
    let unique_id = match text_field(raw, "Uniqueid") {
        Some(v) => v,
        None => return malformed(raw, event_name, "Uniqueid"),
    };
    let queue = match text_field(raw, "Queue") {
        Some(v) => v,
        None => return malformed(raw, event_name, "Queue"),
    };
    let agent = match text_field(raw, "Agent") {
        Some(v) => v,
        None => return malformed(raw, event_name, "Agent"),
    };
    let hold_time = match number_field(raw, "HoldTime") {
        Some(v) => v,
        None => return malformed(raw, event_name, "HoldTime"),
    };
    let bridge_unique_id = match text_field(raw, "BridgeUniqueid") {
        Some(v) => v,
        None => return malformed(raw, event_name, "BridgeUniqueid"),
    };
    AmiEvent::AgentConnect { channel, unique_id, queue, agent, hold_time, bridge_unique_id }
}

/// Reads a `AgentComplete` event.
fn parse_agent_complete(raw: &RawAmiMessage, event_name: &str) -> (r: AmiEvent)
    ensures
        r@ == typed_view(raw@, event_name@, EventKind::AgentComplete, agent_complete_fields()),
{
    proof {
        reveal_with_fuel(read_fields, 8);
    }
    let channel = match text_field(raw, "Channel") {
        Some(v) => v,
        None => return malformed(raw, event_name, "Channel"),
    };
    let unique_id = match text_field(raw, "Uniqueid") {
        Some(v) => v,
        None => return malformed(raw, event_name, "Uniqueid"),
    };
    let queue = match text_field(raw, "Queue") {
        Some(v) => v,
        None => return malformed(raw, event_name, "Queue"),
    };
    let agent = match text_field(raw, "Agent") {
        Some(v) => v,
        None => return malformed(raw, event_name, "Agent"),
    };
    let hold_time = match number_field(raw, "HoldTime") {
        Some(v) => v,
        None => return malformed(raw, event_name, "HoldTime"),
    };
    let talk_time = match number_field(raw, "TalkTime") {
        Some(v) => v,
        None => return malformed(raw, event_name, "TalkTime"),
    };
    let reason = match text_field(raw, "Reason") {
        Some(v) => v,
        None => return malformed(raw, event_name, "Reason"),
    };
    AmiEvent::AgentComplete { channel, unique_id, queue, agent, hold_time, talk_time, reason }
}

/// Reads a `AgentDump` event.
fn parse_agent_dump(raw: &RawAmiMessage, event_name: &str) -> (r: AmiEvent)
    ensures
        r@ == typed_view(raw@, event_name@, EventKind::AgentDump, agent_dump_fields()),
{
    proof {
        reveal_with_fuel(read_fields, 5);
    }
    let channel = match text_field(raw, "Channel") {
        Some(v) => v,
        None => return malformed(raw, event_name, "Channel"),
    };
    let unique_id = match text_field(raw, "Uniqueid") {
        Some(v) => v,
        None => return malformed(raw, event_name, "Uniqueid"),
    };
    let queue = match text_field(raw, "Queue") {
        Some(v) => v,
        None => return malformed(raw, event_name, "Queue"),
    };
    let agent = match text_field(raw, "Agent") {
        Some(v) => v,
        None => return malformed(raw, event_name, "Agent"),
    };
    AmiEvent::AgentDump { channel, unique_id, queue, agent }
}

/// Reads a `AgentLogin` event.
fn parse_agent_login(raw: &RawAmiMessage, event_name: &str) -> (r: AmiEvent)
    ensures
        r@ == typed_view(raw@, event_name@, EventKind::AgentLogin, agent_login_fields()),
{
    proof {
        reveal_with_fuel(read_fields, 4);
    }
    let channel = match text_field(raw, "Channel") {
        Some(v) => v,
        None => return malformed(raw, event_name, "Channel"),
    };
    let unique_id = match text_field(raw, "Uniqueid") {
        Some(v) => v,
        None => return malformed(raw, event_name, "Uniqueid"),
    };
    let agent = match text_field(raw, "Agent") {
        Some(v) => v,
        None => return malformed(raw, event_name, "Agent"),
    };
    AmiEvent::AgentLogin { channel, unique_id, agent }
}

/// Reads a `AgentLogoff` event.
fn parse_agent_logoff(raw: &RawAmiMessage, event_name: &str) -> (r: AmiEvent)
    ensures
        r@ == typed_view(raw@, event_name@, EventKind::AgentLogoff, agent_logoff_fields()),
{
    proof {
        reveal_with_fuel(read_fields, 3);
    }
    let agent = match text_field(raw, "Agent") {
        Some(v) => v,
        None => return malformed(raw, event_name, "Agent"),
    };
    let logintime = match number_field(raw, "Logintime") {
        Some(v) => v,
        None => return malformed(raw, event_name, "Logintime"),
    };
    AmiEvent::AgentLogoff { agent, logintime }
}

/// Reads a `AgentRingNoAnswer` event.
fn parse_agent_ring_no_answer(raw: &RawAmiMessage, event_name: &str) -> (r: AmiEvent)
    ensures
        r@ == typed_view(raw@, event_name@, EventKind::AgentRingNoAnswer, agent_ring_no_answer_fields()),
{
    proof {
        reveal_with_fuel(read_fields, 6);
    }
    let channel = match text_field(raw, "Channel") {
        Some(v) => v,
        None => return malformed(raw, event_name, "Channel"),
    };
    let unique_id = match text_field(raw, "Uniqueid") {
        Some(v) => v,
        None => return malformed(raw, event_name, "Uniqueid"),
    };
    let queue = match text_field(raw, "Queue") {
        Some(v) => v,
        None => return malformed(raw, event_name, "Queue"),
    };
    let agent = match text_field(raw, "Agent") {
        Some(v) => v,
        None => return malformed(raw, event_name, "Agent"),
    };
    let ring_time = match number_field(raw, "RingTime") {
        Some(v) => v,
        None => return malformed(raw, event_name, "RingTime"),
    };
    AmiEvent::AgentRingNoAnswer { channel, unique_id, queue, agent, ring_time }
}

/// Reads a `Agents` event.
fn parse_agents(raw: &RawAmiMessage, event_name: &str) -> (r: AmiEvent)
    ensures
        r@ == typed_view(raw@, event_name@, EventKind::Agents, agents_fields()),
{
    proof {
        reveal_with_fuel(read_fields, 5);
    }
    let agent = match text_field(raw, "Agent") {
        Some(v) => v,
        None => return malformed(raw, event_name, "Agent"),
    };
    let name = match text_field(raw, "Name") {
        Some(v) => v,
        None => return malformed(raw, event_name, "Name"),
    };
    let status = match text_field(raw, "Status") {
        Some(v) => v,
        None => return malformed(raw, event_name, "Status"),
    };
    let channel = optional_field(raw, "Channel");
    AmiEvent::Agents { agent, name, status, channel }
}

/// Reads a `AgentsComplete` event.
fn parse_agents_complete(raw: &RawAmiMessage, event_name: &str) -> (r: AmiEvent)
    ensures
        r@ == typed_view(raw@, event_name@, EventKind::AgentsComplete, agents_complete_fields()),
{
    AmiEvent::AgentsComplete
}

/// Reads a `ConfbridgeStart` event.
fn parse_confbridge_start(raw: &RawAmiMessage, event_name: &str) -> (r: AmiEvent)
    ensures
        r@ == typed_view(raw@, event_name@, EventKind::ConfbridgeStart, confbridge_start_fields()),
{
    proof {
        reveal_with_fuel(read_fields, 3);
    }
    let bridge_unique_id = match text_field(raw, "BridgeUniqueid") {
        Some(v) => v,
        None => return malformed(raw, event_name, "BridgeUniqueid"),
    };
    let conference = match text_field(raw, "Conference") {
        Some(v) => v,
        None => return malformed(raw, event_name, "Conference"),
    };
    AmiEvent::ConfbridgeStart { bridge_unique_id, conference }
}

/// Reads a `ConfbridgeEnd` event.
fn parse_confbridge_end(raw: &RawAmiMessage, event_name: &str) -> (r: AmiEvent)
    ensures
        r@ == typed_view(raw@, event_name@, EventKind::ConfbridgeEnd, confbridge_end_fields()),
{
    proof {
        reveal_with_fuel(read_fields, 3);
    }
    let bridge_unique_id = match text_field(raw, "BridgeUniqueid") {
        Some(v) => v,
        None => return malformed(raw, event_name, "BridgeUniqueid"),
    };
    let conference = match text_field(raw, "Conference") {
        Some(v) => v,
        None => return malformed(raw, event_name, "Conference"),
    };
    AmiEvent::ConfbridgeEnd { bridge_unique_id, conference }
}

/// Reads a `ConfbridgeJoin` event.
fn parse_confbridge_join(raw: &RawAmiMessage, event_name: &str) -> (r: AmiEvent)
    ensures
        r@ == typed_view(raw@, event_name@, EventKind::ConfbridgeJoin, confbridge_join_fields()),
{
    proof {
        reveal_with_fuel(read_fields, 6);
    }
    let bridge_unique_id = match text_field(raw, "BridgeUniqueid") {
        Some(v) => v,
        None => return malformed(raw, event_name, "BridgeUniqueid"),
    };
    let conference = match text_field(raw, "Conference") {
        Some(v) => v,
        None => return malformed(raw, event_name, "Conference"),
    };
    let channel = match text_field(raw, "Channel") {
        Some(v) => v,
        None => return malformed(raw, event_name, "Channel"),
    };
    let unique_id = match text_field(raw, "Uniqueid") {
        Some(v) => v,
        None => return malformed(raw, event_name, "Uniqueid"),
    };
    let admin = match text_field(raw, "Admin") {
        Some(v) => v,
        None => return malformed(raw, event_name, "Admin"),
    };
    AmiEvent::ConfbridgeJoin { bridge_unique_id, conference, channel, unique_id, admin }
}

/// Reads a `ConfbridgeLeave` event.
fn parse_confbridge_leave(raw: &RawAmiMessage, event_name: &str) -> (r: AmiEvent)
    ensures
        r@ == typed_view(raw@, event_name@, EventKind::ConfbridgeLeave, confbridge_leave_fields()),
{
    proof {
        reveal_with_fuel(read_fields, 5);
    }
    let bridge_unique_id = match text_field(raw, "BridgeUniqueid") {
        Some(v) => v,
        None => return malformed(raw, event_name, "BridgeUniqueid"),
    };
    let conference = match text_field(raw, "Conference") {
        Some(v) => v,
        None => return malformed(raw, event_name, "Conference"),
    };
    let channel = match text_field(raw, "Channel") {
        Some(v) => v,
        None => return malformed(raw, event_name, "Channel"),
    };
    let unique_id = match text_field(raw, "Uniqueid") {
        Some(v) => v,
        None => return malformed(raw, event_name, "Uniqueid"),
    };
    AmiEvent::ConfbridgeLeave { bridge_unique_id, conference, channel, unique_id }
}

/// Reads a `ConfbridgeList` event.
fn parse_confbridge_list(raw: &RawAmiMessage, event_name: &str) -> (r: AmiEvent)
    ensures
        r@ == typed_view(raw@, event_name@, EventKind::ConfbridgeList, confbridge_list_fields()),
{
    proof {
        reveal_with_fuel(read_fields, 7);
    }
    let bridge_unique_id = match text_field(raw, "BridgeUniqueid") {
        Some(v) => v,
        None => return malformed(raw, event_name, "BridgeUniqueid"),
    };
    let conference = match text_field(raw, "Conference") {
        Some(v) => v,
        None => return malformed(raw, event_name, "Conference"),
    };
    let channel = match text_field(raw, "Channel") {
        Some(v) => v,
        None => return malformed(raw, event_name, "Channel"),
    };
    let unique_id = match text_field(raw, "Uniqueid") {
        Some(v) => v,
        None => return malformed(raw, event_name, "Uniqueid"),
    };
    let admin = match text_field(raw, "Admin") {
        Some(v) => v,
        None => return malformed(raw, event_name, "Admin"),
    };
    let muted = match text_field(raw, "Muted") {
        Some(v) => v,
        None => return malformed(raw, event_name, "Muted"),
    };
    AmiEvent::ConfbridgeList { bridge_unique_id, conference, channel, unique_id, admin, muted }
}

/// Reads a `ConfbridgeMute` event.
fn parse_confbridge_mute(raw: &RawAmiMessage, event_name: &str) -> (r: AmiEvent)
    ensures
        r@ == typed_view(raw@, event_name@, EventKind::ConfbridgeMute, confbridge_mute_fields()),
{
    proof {
        reveal_with_fuel(read_fields, 5);
    }
    let bridge_unique_id = match text_field(raw, "BridgeUniqueid") {
        Some(v) => v,
        None => return malformed(raw, event_name, "BridgeUniqueid"),
    };
    let conference = match text_field(raw, "Conference") {
        Some(v) => v,
        None => return malformed(raw, event_name, "Conference"),
    };
    let channel = match text_field(raw, "Channel") {
        Some(v) => v,
        None => return malformed(raw, event_name, "Channel"),
    };
    let unique_id = match text_field(raw, "Uniqueid") {
        Some(v) => v,
        None => return malformed(raw, event_name, "Uniqueid"),
    };
    AmiEvent::ConfbridgeMute { bridge_unique_id, conference, channel, unique_id }
}

/// Reads a `ConfbridgeUnmute` event.
fn parse_confbridge_unmute(raw: &RawAmiMessage, event_name: &str) -> (r: AmiEvent)
    ensures
        r@ == typed_view(raw@, event_name@, EventKind::ConfbridgeUnmute, confbridge_unmute_fields()),
{
    proof {
        reveal_with_fuel(read_fields, 5);
    }
    let bridge_unique_id = match text_field(raw, "BridgeUniqueid") {
        Some(v) => v,
        None => return malformed(raw, event_name, "BridgeUniqueid"),
    };
    let conference = match text_field(raw, "Conference") {
        Some(v) => v,
        None => return malformed(raw, event_name, "Conference"),
    };
    let channel = match text_field(raw, "Channel") {
        Some(v) => v,
        None => return malformed(raw, event_name, "Channel"),
    };
    let unique_id = match text_field(raw, "Uniqueid") {
        Some(v) => v,
        None => return malformed(raw, event_name, "Uniqueid"),
    };
    AmiEvent::ConfbridgeUnmute { bridge_unique_id, conference, channel, unique_id }
}

/// Reads a `ConfbridgeTalking` event.
fn parse_confbridge_talking(raw: &RawAmiMessage, event_name: &str) -> (r: AmiEvent)
    ensures
        r@ == typed_view(raw@, event_name@, EventKind::ConfbridgeTalking, confbridge_talking_fields()),
{
    proof {
        reveal_with_fuel(read_fields, 6);
    }
    let bridge_unique_id = match text_field(raw, "BridgeUniqueid") {
        Some(v) => v,
        None => return malformed(raw, event_name, "BridgeUniqueid"),
    };
    let conference = match text_field(raw, "Conference") {
        Some(v) => v,
        None => return malformed(raw, event_name, "Conference"),
    };
    let channel = match text_field(raw, "Channel") {
        Some(v) => v,
        None => return malformed(raw, event_name, "Channel"),
    };
    let unique_id = match text_field(raw, "Uniqueid") {
        Some(v) => v,
        None => return malformed(raw, event_name, "Uniqueid"),
    };
    let talking_status = match text_field(raw, "TalkingStatus") {
        Some(v) => v,
        None => return malformed(raw, event_name, "TalkingStatus"),
    };
    AmiEvent::ConfbridgeTalking { bridge_unique_id, conference, channel, unique_id, talking_status }
}

/// Reads a `ConfbridgeRecord` event.
fn parse_confbridge_record(raw: &RawAmiMessage, event_name: &str) -> (r: AmiEvent)
    ensures
        r@ == typed_view(raw@, event_name@, EventKind::ConfbridgeRecord, confbridge_record_fields()),
{
    proof {
        reveal_with_fuel(read_fields, 3);
    }
    let bridge_unique_id = match text_field(raw, "BridgeUniqueid") {
        Some(v) => v,
        None => return malformed(raw, event_name, "BridgeUniqueid"),
    };
    let conference = match text_field(raw, "Conference") {
        Some(v) => v,
        None => return malformed(raw, event_name, "Conference"),
    };
    AmiEvent::ConfbridgeRecord { bridge_unique_id, conference }
}

/// Reads a `ConfbridgeStopRecord` event.
fn parse_confbridge_stop_record(raw: &RawAmiMessage, event_name: &str) -> (r: AmiEvent)
    ensures
        r@ == typed_view(raw@, event_name@, EventKind::ConfbridgeStopRecord, confbridge_stop_record_fields()),
{
    proof {
        reveal_with_fuel(read_fields, 3);
    }
    let bridge_unique_id = match text_field(raw, "BridgeUniqueid") {
        Some(v) => v,
        None => return malformed(raw, event_name, "BridgeUniqueid"),
    };
    let conference = match text_field(raw, "Conference") {
        Some(v) => v,
        None => return malformed(raw, event_name, "Conference"),
    };
    AmiEvent::ConfbridgeStopRecord { bridge_unique_id, conference }
}

/// Reads a `ConfbridgeListRooms` event.
fn parse_confbridge_list_rooms(raw: &RawAmiMessage, event_name: &str) -> (r: AmiEvent)
    ensures
        r@ == typed_view(raw@, event_name@, EventKind::ConfbridgeListRooms, confbridge_list_rooms_fields()),
{
    proof {
        reveal_with_fuel(read_fields, 5);
    }
    let conference = match text_field(raw, "Conference") {
        Some(v) => v,
        None => return malformed(raw, event_name, "Conference"),
    };
    let parties = match number_field(raw, "Parties") {
        Some(v) => v,
        None => return malformed(raw, event_name, "Parties"),
    };
    let marked = match number_field(raw, "Marked") {
        Some(v) => v,
        None => return malformed(raw, event_name, "Marked"),
    };
    let locked = match text_field(raw, "Locked") {
        Some(v) => v,
        None => return malformed(raw, event_name, "Locked"),
    };
    AmiEvent::ConfbridgeListRooms { conference, parties, marked, locked }
}

/// Reads a `MixMonitorStart` event.
fn parse_mix_monitor_start(raw: &RawAmiMessage, event_name: &str) -> (r: AmiEvent)
    ensures
        r@ == typed_view(raw@, event_name@, EventKind::MixMonitorStart, mix_monitor_start_fields()),
{
    proof {
        reveal_with_fuel(read_fields, 3);
    }
    let channel = match text_field(raw, "Channel") {
        Some(v) => v,
        None => return malformed(raw, event_name, "Channel"),
    };
    let unique_id = match text_field(raw, "Uniqueid") {
        Some(v) => v,
        None => return malformed(raw, event_name, "Uniqueid"),
    };
    AmiEvent::MixMonitorStart { channel, unique_id }
}

/// Reads a `MixMonitorStop` event.
fn parse_mix_monitor_stop(raw: &RawAmiMessage, event_name: &str) -> (r: AmiEvent)
    ensures
        r@ == typed_view(raw@, event_name@, EventKind::MixMonitorStop, mix_monitor_stop_fields()),
{
    proof {
        reveal_with_fuel(read_fields, 3);
    }
    let channel = match text_field(raw, "Channel") {
        Some(v) => v,
        None => return malformed(raw, event_name, "Channel"),
    };
    let unique_id = match text_field(raw, "Uniqueid") {
        Some(v) => v,
        None => return malformed(raw, event_name, "Uniqueid"),
    };
    AmiEvent::MixMonitorStop { channel, unique_id }
}

/// Reads a `MixMonitorMute` event.
fn parse_mix_monitor_mute(raw: &RawAmiMessage, event_name: &str) -> (r: AmiEvent)
    ensures
        r@ == typed_view(raw@, event_name@, EventKind::MixMonitorMute, mix_monitor_mute_fields()),
{
    proof {
        reveal_with_fuel(read_fields, 5);
    }
    let channel = match text_field(raw, "Channel") {
        Some(v) => v,
        None => return malformed(raw, event_name, "Channel"),
    };
    let unique_id = match text_field(raw, "Uniqueid") {
        Some(v) => v,
        None => return malformed(raw, event_name, "Uniqueid"),
    };
    let direction = match text_field(raw, "Direction") {
        Some(v) => v,
        None => return malformed(raw, event_name, "Direction"),
    };
    let state = match text_field(raw, "State") {
        Some(v) => v,
        None => return malformed(raw, event_name, "State"),
    };
    AmiEvent::MixMonitorMute { channel, unique_id, direction, state }
}

/// Reads a `MusicOnHoldStart` event.
fn parse_music_on_hold_start(raw: &RawAmiMessage, event_name: &str) -> (r: AmiEvent)
    ensures
        r@ == typed_view(raw@, event_name@, EventKind::MusicOnHoldStart, music_on_hold_start_fields()),
{
    proof {
        reveal_with_fuel(read_fields, 4);
    }
    let channel = match text_field(raw, "Channel") {
        Some(v) => v,
        None => return malformed(raw, event_name, "Channel"),
    };
    let unique_id = match text_field(raw, "Uniqueid") {
        Some(v) => v,
        None => return malformed(raw, event_name, "Uniqueid"),
    };
    let class = match text_field(raw, "Class") {
        Some(v) => v,
        None => return malformed(raw, event_name, "Class"),
    };
    AmiEvent::MusicOnHoldStart { channel, unique_id, class }
}

/// Reads a `MusicOnHoldStop` event.
fn parse_music_on_hold_stop(raw: &RawAmiMessage, event_name: &str) -> (r: AmiEvent)
    ensures
        r@ == typed_view(raw@, event_name@, EventKind::MusicOnHoldStop, music_on_hold_stop_fields()),
{
    proof {
        reveal_with_fuel(read_fields, 3);
    }
    let channel = match text_field(raw, "Channel") {
        Some(v) => v,
        None => return malformed(raw, event_name, "Channel"),
    };
    let unique_id = match text_field(raw, "Uniqueid") {
        Some(v) => v,
        None => return malformed(raw, event_name, "Uniqueid"),
    };
    AmiEvent::MusicOnHoldStop { channel, unique_id }
}

/// Reads a `ParkedCall` event.
fn parse_parked_call(raw: &RawAmiMessage, event_name: &str) -> (r: AmiEvent)
    ensures
        r@ == typed_view(raw@, event_name@, EventKind::ParkedCall, parked_call_fields()),
{
    proof {
        reveal_with_fuel(read_fields, 7);
    }
    let channel = match text_field(raw, "Channel") {
        Some(v) => v,
        None => return malformed(raw, event_name, "Channel"),
    };
    let unique_id = match text_field(raw, "Uniqueid") {
        Some(v) => v,
        None => return malformed(raw, event_name, "Uniqueid"),
    };
    let parking_lot = match text_field(raw, "ParkingLot") {
        Some(v) => v,
        None => return malformed(raw, event_name, "ParkingLot"),
    };
    let parking_space = match number_field(raw, "ParkingSpace") {
        Some(v) => v,
        None => return malformed(raw, event_name, "ParkingSpace"),
    };
    let parker_dial_string = match text_field(raw, "ParkerDialString") {
        Some(v) => v,
        None => return malformed(raw, event_name, "ParkerDialString"),
    };
    let timeout = match number_field(raw, "Timeout") {
        Some(v) => v,
        None => return malformed(raw, event_name, "Timeout"),
    };
    AmiEvent::ParkedCall { channel, unique_id, parking_lot, parking_space, parker_dial_string, timeout }
}

/// Reads a `ParkedCallGiveUp` event.
fn parse_parked_call_give_up(raw: &RawAmiMessage, event_name: &str) -> (r: AmiEvent)
    ensures
        r@ == typed_view(raw@, event_name@, EventKind::ParkedCallGiveUp, parked_call_give_up_fields()),
{
    proof {
        reveal_with_fuel(read_fields, 5);
    }
    let channel = match text_field(raw, "Channel") {
        Some(v) => v,
        None => return malformed(raw, event_name, "Channel"),
    };
    let unique_id = match text_field(raw, "Uniqueid") {
        Some(v) => v,
        None => return malformed(raw, event_name, "Uniqueid"),
    };
    let parking_lot = match text_field(raw, "ParkingLot") {
        Some(v) => v,
        None => return malformed(raw, event_name, "ParkingLot"),
    };
    let parking_space = match number_field(raw, "ParkingSpace") {
        Some(v) => v,
        None => return malformed(raw, event_name, "ParkingSpace"),
    };
    AmiEvent::ParkedCallGiveUp { channel, unique_id, parking_lot, parking_space }
}

/// Reads a `ParkedCallTimeOut` event.
fn parse_parked_call_time_out(raw: &RawAmiMessage, event_name: &str) -> (r: AmiEvent)
    ensures
        r@ == typed_view(raw@, event_name@, EventKind::ParkedCallTimeOut, parked_call_time_out_fields()),
{
    proof {
        reveal_with_fuel(read_fields, 5);
    }
    let channel = match text_field(raw, "Channel") {
        Some(v) => v,
        None => return malformed(raw, event_name, "Channel"),
    };
    let unique_id = match text_field(raw, "Uniqueid") {
        Some(v) => v,
        None => return malformed(raw, event_name, "Uniqueid"),
    };
    let parking_lot = match text_field(raw, "ParkingLot") {
        Some(v) => v,
        None => return malformed(raw, event_name, "ParkingLot"),
    };
    let parking_space = match number_field(raw, "ParkingSpace") {
        Some(v) => v,
        None => return malformed(raw, event_name, "ParkingSpace"),
    };
    AmiEvent::ParkedCallTimeOut { channel, unique_id, parking_lot, parking_space }
}

/// Reads a `ParkedCallSwap` event.
fn parse_parked_call_swap(raw: &RawAmiMessage, event_name: &str) -> (r: AmiEvent)
    ensures
        r@ == typed_view(raw@, event_name@, EventKind::ParkedCallSwap, parked_call_swap_fields()),
{
    proof {
        reveal_with_fuel(read_fields, 6);
    }
    let channel = match text_field(raw, "Channel") {
        Some(v) => v,
        None => return malformed(raw, event_name, "Channel"),
    };
    let unique_id = match text_field(raw, "Uniqueid") {
        Some(v) => v,
        None => return malformed(raw, event_name, "Uniqueid"),
    };
    let parking_lot = match text_field(raw, "ParkingLot") {
        Some(v) => v,
        None => return malformed(raw, event_name, "ParkingLot"),
    };
    let parking_space = match number_field(raw, "ParkingSpace") {
        Some(v) => v,
        None => return malformed(raw, event_name, "ParkingSpace"),
    };
    let parker_channel = match text_field(raw, "ParkerChannel") {
        Some(v) => v,
        None => return malformed(raw, event_name, "ParkerChannel"),
    };
    AmiEvent::ParkedCallSwap { channel, unique_id, parking_lot, parking_space, parker_channel }
}

/// Reads a `UnParkedCall` event.
fn parse_un_parked_call(raw: &RawAmiMessage, event_name: &str) -> (r: AmiEvent)
    ensures
        r@ == typed_view(raw@, event_name@, EventKind::UnParkedCall, un_parked_call_fields()),
{
    proof {
        reveal_with_fuel(read_fields, 6);
    }
    let channel = match text_field(raw, "Channel") {
        Some(v) => v,
        None => return malformed(raw, event_name, "Channel"),
    };
    let unique_id = match text_field(raw, "Uniqueid") {
        Some(v) => v,
        None => return malformed(raw, event_name, "Uniqueid"),
    };
    let parking_lot = match text_field(raw, "ParkingLot") {
        Some(v) => v,
        None => return malformed(raw, event_name, "ParkingLot"),
    };
    let parking_space = match number_field(raw, "ParkingSpace") {
        Some(v) => v,
        None => return malformed(raw, event_name, "ParkingSpace"),
    };
    let retriever_channel = match text_field(raw, "RetrieverChannel") {
        Some(v) => v,
        None => return malformed(raw, event_name, "RetrieverChannel"),
    };
    AmiEvent::UnParkedCall { channel, unique_id, parking_lot, parking_space, retriever_channel }
}

/// Reads a `Pickup` event.
fn parse_pickup(raw: &RawAmiMessage, event_name: &str) -> (r: AmiEvent)
    ensures
        r@ == typed_view(raw@, event_name@, EventKind::Pickup, pickup_fields()),
{
    proof {
        reveal_with_fuel(read_fields, 5);
    }
    let channel = match text_field(raw, "Channel") {
        Some(v) => v,
        None => return malformed(raw, event_name, "Channel"),
    };
    let unique_id = match text_field(raw, "Uniqueid") {
        Some(v) => v,
        None => return malformed(raw, event_name, "Uniqueid"),
    };
    let target_channel = match text_field(raw, "TargetChannel") {
        Some(v) => v,
        None => return malformed(raw, event_name, "TargetChannel"),
    };
    let target_unique_id = match text_field(raw, "TargetUniqueid") {
        Some(v) => v,
        None => return malformed(raw, event_name, "TargetUniqueid"),
    };
    AmiEvent::Pickup { channel, unique_id, target_channel, target_unique_id }
}

/// Reads a `ChanSpyStart` event.
fn parse_chan_spy_start(raw: &RawAmiMessage, event_name: &str) -> (r: AmiEvent)
    ensures
        r@ == typed_view(raw@, event_name@, EventKind::ChanSpyStart, chan_spy_start_fields()),
{
    proof {
        reveal_with_fuel(read_fields, 5);
    }
    let channel = match text_field(raw, "Channel") {
        Some(v) => v,
        None => return malformed(raw, event_name, "Channel"),
    };
    let unique_id = match text_field(raw, "Uniqueid") {
        Some(v) => v,
        None => return malformed(raw, event_name, "Uniqueid"),
    };
    let spy_channel = match text_field(raw, "SpyeeChannel") {
        Some(v) => v,
        None => return malformed(raw, event_name, "SpyeeChannel"),
    };
    let spy_unique_id = match text_field(raw, "SpyeeUniqueid") {
        Some(v) => v,
        None => return malformed(raw, event_name, "SpyeeUniqueid"),
    };
    AmiEvent::ChanSpyStart { channel, unique_id, spy_channel, spy_unique_id }
}

/// Reads a `ChanSpyStop` event.
fn parse_chan_spy_stop(raw: &RawAmiMessage, event_name: &str) -> (r: AmiEvent)
    ensures
        r@ == typed_view(raw@, event_name@, EventKind::ChanSpyStop, chan_spy_stop_fields()),
{
    proof {
        reveal_with_fuel(read_fields, 5);
    }
    let channel = match text_field(raw, "Channel") {
        Some(v) => v,
        None => return malformed(raw, event_name, "Channel"),
    };
    let unique_id = match text_field(raw, "Uniqueid") {
        Some(v) => v,
        None => return malformed(raw, event_name, "Uniqueid"),
    };
    let spy_channel = match text_field(raw, "SpyeeChannel") {
        Some(v) => v,
        None => return malformed(raw, event_name, "SpyeeChannel"),
    };
    let spy_unique_id = match text_field(raw, "SpyeeUniqueid") {
        Some(v) => v,
        None => return malformed(raw, event_name, "SpyeeUniqueid"),
    };
    AmiEvent::ChanSpyStop { channel, unique_id, spy_channel, spy_unique_id }
}

/// Reads a `ChannelTalkingStart` event.
fn parse_channel_talking_start(raw: &RawAmiMessage, event_name: &str) -> (r: AmiEvent)
    ensures
        r@ == typed_view(raw@, event_name@, EventKind::ChannelTalkingStart, channel_talking_start_fields()),
{
    proof {
        reveal_with_fuel(read_fields, 3);
    }
    let channel = match text_field(raw, "Channel") {
        Some(v) => v,
        None => return malformed(raw, event_name, "Channel"),
    };
    let unique_id = match text_field(raw, "Uniqueid") {
        Some(v) => v,
        None => return malformed(raw, event_name, "Uniqueid"),
    };
    AmiEvent::ChannelTalkingStart { channel, unique_id }
}

/// Reads a `ChannelTalkingStop` event.
fn parse_channel_talking_stop(raw: &RawAmiMessage, event_name: &str) -> (r: AmiEvent)
    ensures
        r@ == typed_view(raw@, event_name@, EventKind::ChannelTalkingStop, channel_talking_stop_fields()),
{
    proof {
        reveal_with_fuel(read_fields, 4);
    }
    let channel = match text_field(raw, "Channel") {
        Some(v) => v,
        None => return malformed(raw, event_name, "Channel"),
    };
    let unique_id = match text_field(raw, "Uniqueid") {
        Some(v) => v,
        None => return malformed(raw, event_name, "Uniqueid"),
    };
    let duration = match number_field(raw, "Duration") {
        Some(v) => v,
        None => return malformed(raw, event_name, "Duration"),
    };
    AmiEvent::ChannelTalkingStop { channel, unique_id, duration }
}

/// Reads a `DeviceStateChange` event.
fn parse_device_state_change(raw: &RawAmiMessage, event_name: &str) -> (r: AmiEvent)
    ensures
        r@ == typed_view(raw@, event_name@, EventKind::DeviceStateChange, device_state_change_fields()),
{
    proof {
        reveal_with_fuel(read_fields, 3);
    }
    let device = match text_field(raw, "Device") {
        Some(v) => v,
        None => return malformed(raw, event_name, "Device"),
    };
    let state = match text_field(raw, "State") {
        Some(v) => v,
        None => return malformed(raw, event_name, "State"),
    };
    AmiEvent::DeviceStateChange { device, state }
}

/// Reads a `ExtensionStatus` event.
fn parse_extension_status(raw: &RawAmiMessage, event_name: &str) -> (r: AmiEvent)
    ensures
        r@ == typed_view(raw@, event_name@, EventKind::ExtensionStatus, extension_status_fields()),
{
    proof {
        reveal_with_fuel(read_fields, 6);
    }
    let exten = match text_field(raw, "Exten") {
        Some(v) => v,
        None => return malformed(raw, event_name, "Exten"),
    };
    let context = match text_field(raw, "Context") {
        Some(v) => v,
        None => return malformed(raw, event_name, "Context"),
    };
    let hint = match text_field(raw, "Hint") {
        Some(v) => v,
        None => return malformed(raw, event_name, "Hint"),
    };
    let status = match number_field(raw, "Status") {
        Some(v) => v,
        None => return malformed(raw, event_name, "Status"),
    };
    let status_text = match text_field(raw, "StatusText") {
        Some(v) => v,
        None => return malformed(raw, event_name, "StatusText"),
    };
    AmiEvent::ExtensionStatus { exten, context, hint, status, status_text }
}

/// Reads a `PresenceStateChange` event.
fn parse_presence_state_change(raw: &RawAmiMessage, event_name: &str) -> (r: AmiEvent)
    ensures
        r@ == typed_view(raw@, event_name@, EventKind::PresenceStateChange, presence_state_change_fields()),
{
    proof {
        reveal_with_fuel(read_fields, 5);
    }
    let presentity = match text_field(raw, "Presentity") {
        Some(v) => v,
        None => return malformed(raw, event_name, "Presentity"),
    };
    let status = match text_field(raw, "Status") {
        Some(v) => v,
        None => return malformed(raw, event_name, "Status"),
    };
    let subtype = match text_field(raw, "Subtype") {
        Some(v) => v,
        None => return malformed(raw, event_name, "Subtype"),
    };
    let message = match text_field(raw, "Message") {
        Some(v) => v,
        None => return malformed(raw, event_name, "Message"),
    };
    AmiEvent::PresenceStateChange { presentity, status, subtype, message }
}

/// Reads a `PresenceStatus` event.
fn parse_presence_status(raw: &RawAmiMessage, event_name: &str) -> (r: AmiEvent)
    ensures
        r@ == typed_view(raw@, event_name@, EventKind::PresenceStatus, presence_status_fields()),
{
    proof {
        reveal_with_fuel(read_fields, 5);
    }
    let presentity = match text_field(raw, "Presentity") {
        Some(v) => v,
        None => return malformed(raw, event_name, "Presentity"),
    };
    let status = match text_field(raw, "Status") {
        Some(v) => v,
        None => return malformed(raw, event_name, "Status"),
    };
    let subtype = match text_field(raw, "Subtype") {
        Some(v) => v,
        None => return malformed(raw, event_name, "Subtype"),
    };
    let message = match text_field(raw, "Message") {
        Some(v) => v,
        None => return malformed(raw, event_name, "Message"),
    };
    AmiEvent::PresenceStatus { presentity, status, subtype, message }
}

/// Reads a `ContactStatus` event.
fn parse_contact_status(raw: &RawAmiMessage, event_name: &str) -> (r: AmiEvent)
    ensures
        r@ == typed_view(raw@, event_name@, EventKind::ContactStatus, contact_status_fields()),
{
    proof {
        reveal_with_fuel(read_fields, 5);
    }
    let uri = match text_field(raw, "URI") {
        Some(v) => v,
        None => return malformed(raw, event_name, "URI"),
    };
    let contact_status = match text_field(raw, "ContactStatus") {
        Some(v) => v,
        None => return malformed(raw, event_name, "ContactStatus"),
    };
    let aor = match text_field(raw, "AOR") {
        Some(v) => v,
        None => return malformed(raw, event_name, "AOR"),
    };
    let endpoint_name = match text_field(raw, "EndpointName") {
        Some(v) => v,
        None => return malformed(raw, event_name, "EndpointName"),
    };
    AmiEvent::ContactStatus { uri, contact_status, aor, endpoint_name }
}

/// Reads a `Registry` event.
fn parse_registry(raw: &RawAmiMessage, event_name: &str) -> (r: AmiEvent)
    ensures
        r@ == typed_view(raw@, event_name@, EventKind::Registry, registry_fields()),
{
    proof {
        reveal_with_fuel(read_fields, 6);
    }
    let channel_type = match text_field(raw, "ChannelType") {
        Some(v) => v,
        None => return malformed(raw, event_name, "ChannelType"),
    };
    let domain = match text_field(raw, "Domain") {
        Some(v) => v,
        None => return malformed(raw, event_name, "Domain"),
    };
    let username = match text_field(raw, "Username") {
        Some(v) => v,
        None => return malformed(raw, event_name, "Username"),
    };
    let status = match text_field(raw, "Status") {
        Some(v) => v,
        None => return malformed(raw, event_name, "Status"),
    };
    let cause = match text_field(raw, "Cause") {
        Some(v) => v,
        None => return malformed(raw, event_name, "Cause"),
    };
    AmiEvent::Registry { channel_type, domain, username, status, cause }
}

/// Reads a `MessageWaiting` event.
fn parse_message_waiting(raw: &RawAmiMessage, event_name: &str) -> (r: AmiEvent)
    ensures
        r@ == typed_view(raw@, event_name@, EventKind::MessageWaiting, message_waiting_fields()),
{
    proof {
        reveal_with_fuel(read_fields, 5);
    }
    let mailbox = match text_field(raw, "Mailbox") {
        Some(v) => v,
        None => return malformed(raw, event_name, "Mailbox"),
    };
    let waiting = match text_field(raw, "Waiting") {
        Some(v) => v,
        None => return malformed(raw, event_name, "Waiting"),
    };
    let new_messages = match number_field(raw, "New") {
        Some(v) => v,
        None => return malformed(raw, event_name, "New"),
    };
    let old_messages = match number_field(raw, "Old") {
        Some(v) => v,
        None => return malformed(raw, event_name, "Old"),
    };
    AmiEvent::MessageWaiting { mailbox, waiting, new_messages, old_messages }
}

/// Reads a `VoicemailPasswordChange` event.
fn parse_voicemail_password_change(raw: &RawAmiMessage, event_name: &str) -> (r: AmiEvent)
    ensures
        r@ == typed_view(raw@, event_name@, EventKind::VoicemailPasswordChange, voicemail_password_change_fields()),
{
    proof {
        reveal_with_fuel(read_fields, 4);
    }
    let context = match text_field(raw, "Context") {
        Some(v) => v,
        None => return malformed(raw, event_name, "Context"),
    };
    let mailbox = match text_field(raw, "Mailbox") {
        Some(v) => v,
        None => return malformed(raw, event_name, "Mailbox"),
    };
    let new_password = match text_field(raw, "NewPassword") {
        Some(v) => v,
        None => return malformed(raw, event_name, "NewPassword"),
    };
    AmiEvent::VoicemailPasswordChange { context, mailbox, new_password }
}

/// Reads a `RTCPReceived` event.
fn parse_rtcp_received(raw: &RawAmiMessage, event_name: &str) -> (r: AmiEvent)
    ensures
        r@ == typed_view(raw@, event_name@, EventKind::RTCPReceived, rtcp_received_fields()),
{
    proof {
        reveal_with_fuel(read_fields, 6);
    }
    let channel = match text_field(raw, "Channel") {
        Some(v) => v,
        None => return malformed(raw, event_name, "Channel"),
    };
    let unique_id = match text_field(raw, "Uniqueid") {
        Some(v) => v,
        None => return malformed(raw, event_name, "Uniqueid"),
    };
    let ssrc = match text_field(raw, "SSRC") {
        Some(v) => v,
        None => return malformed(raw, event_name, "SSRC"),
    };
    let pt = match text_field(raw, "PT") {
        Some(v) => v,
        None => return malformed(raw, event_name, "PT"),
    };
    let from = match text_field(raw, "From") {
        Some(v) => v,
        None => return malformed(raw, event_name, "From"),
    };
    AmiEvent::RTCPReceived { channel, unique_id, ssrc, pt, from }
}

/// Reads a `RTCPSent` event.
fn parse_rtcp_sent(raw: &RawAmiMessage, event_name: &str) -> (r: AmiEvent)
    ensures
        r@ == typed_view(raw@, event_name@, EventKind::RTCPSent, rtcp_sent_fields()),
{
    proof {
        reveal_with_fuel(read_fields, 6);
    }
    let channel = match text_field(raw, "Channel") {
        Some(v) => v,
        None => return malformed(raw, event_name, "Channel"),
    };
    let unique_id = match text_field(raw, "Uniqueid") {
        Some(v) => v,
        None => return malformed(raw, event_name, "Uniqueid"),
    };
    let ssrc = match text_field(raw, "SSRC") {
        Some(v) => v,
        None => return malformed(raw, event_name, "SSRC"),
    };
    let pt = match text_field(raw, "PT") {
        Some(v) => v,
        None => return malformed(raw, event_name, "PT"),
    };
    let to = match text_field(raw, "To") {
        Some(v) => v,
        None => return malformed(raw, event_name, "To"),
    };
    AmiEvent::RTCPSent { channel, unique_id, ssrc, pt, to }
}

/// Reads a `FailedACL` event.
fn parse_failed_acl(raw: &RawAmiMessage, event_name: &str) -> (r: AmiEvent)
    ensures
        r@ == typed_view(raw@, event_name@, EventKind::FailedACL, failed_acl_fields()),
{
    proof {
        reveal_with_fuel(read_fields, 5);
    }
    let severity = match text_field(raw, "Severity") {
        Some(v) => v,
        None => return malformed(raw, event_name, "Severity"),
    };
    let service = match text_field(raw, "Service") {
        Some(v) => v,
        None => return malformed(raw, event_name, "Service"),
    };
    let account_id = match text_field(raw, "AccountID") {
        Some(v) => v,
        None => return malformed(raw, event_name, "AccountID"),
    };
    let remote_address = match text_field(raw, "RemoteAddress") {
        Some(v) => v,
        None => return malformed(raw, event_name, "RemoteAddress"),
    };
    AmiEvent::FailedACL { severity, service, account_id, remote_address }
}

/// Reads a `InvalidAccountID` event.
fn parse_invalid_account_id(raw: &RawAmiMessage, event_name: &str) -> (r: AmiEvent)
    ensures
        r@ == typed_view(raw@, event_name@, EventKind::InvalidAccountID, invalid_account_id_fields()),
{
    proof {
        reveal_with_fuel(read_fields, 5);
    }
    let severity = match text_field(raw, "Severity") {
        Some(v) => v,
        None => return malformed(raw, event_name, "Severity"),
    };
    let service = match text_field(raw, "Service") {
        Some(v) => v,
        None => return malformed(raw, event_name, "Service"),
    };
    let account_id = match text_field(raw, "AccountID") {
        Some(v) => v,
        None => return malformed(raw, event_name, "AccountID"),
    };
    let remote_address = match text_field(raw, "RemoteAddress") {
        Some(v) => v,
        None => return malformed(raw, event_name, "RemoteAddress"),
    };
    AmiEvent::InvalidAccountID { severity, service, account_id, remote_address }
}

/// Reads a `InvalidPassword` event.
fn parse_invalid_password(raw: &RawAmiMessage, event_name: &str) -> (r: AmiEvent)
    ensures
        r@ == typed_view(raw@, event_name@, EventKind::InvalidPassword, invalid_password_fields()),
{
    proof {
        reveal_with_fuel(read_fields, 5);
    }
    let severity = match text_field(raw, "Severity") {
        Some(v) => v,
        None => return malformed(raw, event_name, "Severity"),
    };
    let service = match text_field(raw, "Service") {
        Some(v) => v,
        None => return malformed(raw, event_name, "Service"),
    };
    let account_id = match text_field(raw, "AccountID") {
        Some(v) => v,
        None => return malformed(raw, event_name, "AccountID"),
    };
    let remote_address = match text_field(raw, "RemoteAddress") {
        Some(v) => v,
        None => return malformed(raw, event_name, "RemoteAddress"),
    };
    AmiEvent::InvalidPassword { severity, service, account_id, remote_address }
}

/// Reads a `ChallengeResponseFailed` event.
fn parse_challenge_response_failed(raw: &RawAmiMessage, event_name: &str) -> (r: AmiEvent)
    ensures
        r@ == typed_view(raw@, event_name@, EventKind::ChallengeResponseFailed, challenge_response_failed_fields()),
{
    proof {
        reveal_with_fuel(read_fields, 5);
    }
    let severity = match text_field(raw, "Severity") {
        Some(v) => v,
        None => return malformed(raw, event_name, "Severity"),
    };
    let service = match text_field(raw, "Service") {
        Some(v) => v,
        None => return malformed(raw, event_name, "Service"),
    };
    let account_id = match text_field(raw, "AccountID") {
        Some(v) => v,
        None => return malformed(raw, event_name, "AccountID"),
    };
    let remote_address = match text_field(raw, "RemoteAddress") {
        Some(v) => v,
        None => return malformed(raw, event_name, "RemoteAddress"),
    };
    AmiEvent::ChallengeResponseFailed { severity, service, account_id, remote_address }
}

/// Reads a `ChallengeSent` event.
fn parse_challenge_sent(raw: &RawAmiMessage, event_name: &str) -> (r: AmiEvent)
    ensures
        r@ == typed_view(raw@, event_name@, EventKind::ChallengeSent, challenge_sent_fields()),
{
    proof {
        reveal_with_fuel(read_fields, 5);
    }
    let severity = match text_field(raw, "Severity") {
        Some(v) => v,
        None => return malformed(raw, event_name, "Severity"),
    };
    let service = match text_field(raw, "Service") {
        Some(v) => v,
        None => return malformed(raw, event_name, "Service"),
    };
    let account_id = match text_field(raw, "AccountID") {
        Some(v) => v,
        None => return malformed(raw, event_name, "AccountID"),
    };
    let remote_address = match text_field(raw, "RemoteAddress") {
        Some(v) => v,
        None => return malformed(raw, event_name, "RemoteAddress"),
    };
    AmiEvent::ChallengeSent { severity, service, account_id, remote_address }
}

/// Reads a `SuccessfulAuth` event.
fn parse_successful_auth(raw: &RawAmiMessage, event_name: &str) -> (r: AmiEvent)
    ensures
        r@ == typed_view(raw@, event_name@, EventKind::SuccessfulAuth, successful_auth_fields()),
{
    proof {
        reveal_with_fuel(read_fields, 5);
    }
    let severity = match text_field(raw, "Severity") {
        Some(v) => v,
        None => return malformed(raw, event_name, "Severity"),
    };
    let service = match text_field(raw, "Service") {
        Some(v) => v,
        None => return malformed(raw, event_name, "Service"),
    };
    let account_id = match text_field(raw, "AccountID") {
        Some(v) => v,
        None => return malformed(raw, event_name, "AccountID"),
    };
    let remote_address = match text_field(raw, "RemoteAddress") {
        Some(v) => v,
        None => return malformed(raw, event_name, "RemoteAddress"),
    };
    AmiEvent::SuccessfulAuth { severity, service, account_id, remote_address }
}

/// Reads a `SessionLimit` event.
fn parse_session_limit(raw: &RawAmiMessage, event_name: &str) -> (r: AmiEvent)
    ensures
        r@ == typed_view(raw@, event_name@, EventKind::SessionLimit, session_limit_fields()),
{
    proof {
        reveal_with_fuel(read_fields, 5);
    }
    let severity = match text_field(raw, "Severity") {
        Some(v) => v,
        None => return malformed(raw, event_name, "Severity"),
    };
    let service = match text_field(raw, "Service") {
        Some(v) => v,
        None => return malformed(raw, event_name, "Service"),
    };
    let account_id = match text_field(raw, "AccountID") {
        Some(v) => v,
        None => return malformed(raw, event_name, "AccountID"),
    };
    let remote_address = match text_field(raw, "RemoteAddress") {
        Some(v) => v,
        None => return malformed(raw, event_name, "RemoteAddress"),
    };
    AmiEvent::SessionLimit { severity, service, account_id, remote_address }
}

/// Reads a `UnexpectedAddress` event.
fn parse_unexpected_address(raw: &RawAmiMessage, event_name: &str) -> (r: AmiEvent)
    ensures
        r@ == typed_view(raw@, event_name@, EventKind::UnexpectedAddress, unexpected_address_fields()),
{
    proof {
        reveal_with_fuel(read_fields, 5);
    }
    let severity = match text_field(raw, "Severity") {
        Some(v) => v,
        None => return malformed(raw, event_name, "Severity"),
    };
    let service = match text_field(raw, "Service") {
        Some(v) => v,
        None => return malformed(raw, event_name, "Service"),
    };
    let account_id = match text_field(raw, "AccountID") {
        Some(v) => v,
        None => return malformed(raw, event_name, "AccountID"),
    };
    let remote_address = match text_field(raw, "RemoteAddress") {
        Some(v) => v,
        None => return malformed(raw, event_name, "RemoteAddress"),
    };
    AmiEvent::UnexpectedAddress { severity, service, account_id, remote_address }
}

/// Reads a `RequestBadFormat` event.
fn parse_request_bad_format(raw: &RawAmiMessage, event_name: &str) -> (r: AmiEvent)
    ensures
        r@ == typed_view(raw@, event_name@, EventKind::RequestBadFormat, request_bad_format_fields()),
{
    proof {
        reveal_with_fuel(read_fields, 5);
    }
    let severity = match text_field(raw, "Severity") {
        Some(v) => v,
        None => return malformed(raw, event_name, "Severity"),
    };
    let service = match text_field(raw, "Service") {
        Some(v) => v,
        None => return malformed(raw, event_name, "Service"),
    };
    let account_id = match text_field(raw, "AccountID") {
        Some(v) => v,
        None => return malformed(raw, event_name, "AccountID"),
    };
    let remote_address = match text_field(raw, "RemoteAddress") {
        Some(v) => v,
        None => return malformed(raw, event_name, "RemoteAddress"),
    };
    AmiEvent::RequestBadFormat { severity, service, account_id, remote_address }
}

/// Reads a `RequestNotAllowed` event.
fn parse_request_not_allowed(raw: &RawAmiMessage, event_name: &str) -> (r: AmiEvent)
    ensures
        r@ == typed_view(raw@, event_name@, EventKind::RequestNotAllowed, request_not_allowed_fields()),
{
    proof {
        reveal_with_fuel(read_fields, 5);
    }
    let severity = match text_field(raw, "Severity") {
        Some(v) => v,
        None => return malformed(raw, event_name, "Severity"),
    };
    let service = match text_field(raw, "Service") {
        Some(v) => v,
        None => return malformed(raw, event_name, "Service"),
    };
    let account_id = match text_field(raw, "AccountID") {
        Some(v) => v,
        None => return malformed(raw, event_name, "AccountID"),
    };
    let remote_address = match text_field(raw, "RemoteAddress") {
        Some(v) => v,
        None => return malformed(raw, event_name, "RemoteAddress"),
    };
    AmiEvent::RequestNotAllowed { severity, service, account_id, remote_address }
}

/// Reads a `RequestNotSupported` event.
fn parse_request_not_supported(raw: &RawAmiMessage, event_name: &str) -> (r: AmiEvent)
    ensures
        r@ == typed_view(raw@, event_name@, EventKind::RequestNotSupported, request_not_supported_fields()),
{
    proof {
        reveal_with_fuel(read_fields, 5);
    }
    let severity = match text_field(raw, "Severity") {
        Some(v) => v,
        None => return malformed(raw, event_name, "Severity"),
    };
    let service = match text_field(raw, "Service") {
        Some(v) => v,
        None => return malformed(raw, event_name, "Service"),
    };
    let account_id = match text_field(raw, "AccountID") {
        Some(v) => v,
        None => return malformed(raw, event_name, "AccountID"),
    };
    let remote_address = match text_field(raw, "RemoteAddress") {
        Some(v) => v,
        None => return malformed(raw, event_name, "RemoteAddress"),
    };
    AmiEvent::RequestNotSupported { severity, service, account_id, remote_address }
}

/// Reads a `InvalidTransport` event.
fn parse_invalid_transport(raw: &RawAmiMessage, event_name: &str) -> (r: AmiEvent)
    ensures
        r@ == typed_view(raw@, event_name@, EventKind::InvalidTransport, invalid_transport_fields()),
{
    proof {
        reveal_with_fuel(read_fields, 5);
    }
    let severity = match text_field(raw, "Severity") {
        Some(v) => v,
        None => return malformed(raw, event_name, "Severity"),
    };
    let service = match text_field(raw, "Service") {
        Some(v) => v,
        None => return malformed(raw, event_name, "Service"),
    };
    let account_id = match text_field(raw, "AccountID") {
        Some(v) => v,
        None => return malformed(raw, event_name, "AccountID"),
    };
    let remote_address = match text_field(raw, "RemoteAddress") {
        Some(v) => v,
        None => return malformed(raw, event_name, "RemoteAddress"),
    };
    AmiEvent::InvalidTransport { severity, service, account_id, remote_address }
}

/// Reads a `AuthMethodNotAllowed` event.
fn parse_auth_method_not_allowed(raw: &RawAmiMessage, event_name: &str) -> (r: AmiEvent)
    ensures
        r@ == typed_view(raw@, event_name@, EventKind::AuthMethodNotAllowed, auth_method_not_allowed_fields()),
{
    proof {
        reveal_with_fuel(read_fields, 5);
    }
    let severity = match text_field(raw, "Severity") {
        Some(v) => v,
        None => return malformed(raw, event_name, "Severity"),
    };
    let service = match text_field(raw, "Service") {
        Some(v) => v,
        None => return malformed(raw, event_name, "Service"),
    };
    let account_id = match text_field(raw, "AccountID") {
        Some(v) => v,
        None => return malformed(raw, event_name, "AccountID"),
    };
    let remote_address = match text_field(raw, "RemoteAddress") {
        Some(v) => v,
        None => return malformed(raw, event_name, "RemoteAddress"),
    };
    AmiEvent::AuthMethodNotAllowed { severity, service, account_id, remote_address }
}

/// Reads a `Shutdown` event.
fn parse_shutdown(raw: &RawAmiMessage, event_name: &str) -> (r: AmiEvent)
    ensures
        r@ == typed_view(raw@, event_name@, EventKind::Shutdown, shutdown_fields()),
{
    proof {
        reveal_with_fuel(read_fields, 3);
    }
    let shutdown_status = match text_field(raw, "Shutdown") {
        Some(v) => v,
        None => return malformed(raw, event_name, "Shutdown"),
    };
    let restart = match text_field(raw, "Restart") {
        Some(v) => v,
        None => return malformed(raw, event_name, "Restart"),
    };
    AmiEvent::Shutdown { shutdown_status, restart }
}

/// Reads a `Reload` event.
fn parse_reload(raw: &RawAmiMessage, event_name: &str) -> (r: AmiEvent)
    ensures
        r@ == typed_view(raw@, event_name@, EventKind::Reload, reload_fields()),
{
    proof {
        reveal_with_fuel(read_fields, 3);
    }
    let module = match text_field(raw, "Module") {
        Some(v) => v,
        None => return malformed(raw, event_name, "Module"),
    };
    let status = match text_field(raw, "Status") {
        Some(v) => v,
        None => return malformed(raw, event_name, "Status"),
    };
    AmiEvent::Reload { module, status }
}

/// Reads a `Load` event.
fn parse_load(raw: &RawAmiMessage, event_name: &str) -> (r: AmiEvent)
    ensures
        r@ == typed_view(raw@, event_name@, EventKind::Load, load_fields()),
{
    proof {
        reveal_with_fuel(read_fields, 3);
    }
    let module = match text_field(raw, "Module") {
        Some(v) => v,
        None => return malformed(raw, event_name, "Module"),
    };
    let status = match text_field(raw, "Status") {
        Some(v) => v,
        None => return malformed(raw, event_name, "Status"),
    };
    AmiEvent::Load { module, status }
}

/// Reads a `Unload` event.
fn parse_unload(raw: &RawAmiMessage, event_name: &str) -> (r: AmiEvent)
    ensures
        r@ == typed_view(raw@, event_name@, EventKind::Unload, unload_fields()),
{
    proof {
        reveal_with_fuel(read_fields, 3);
    }
    let module = match text_field(raw, "Module") {
        Some(v) => v,
        None => return malformed(raw, event_name, "Module"),
    };
    let status = match text_field(raw, "Status") {
        Some(v) => v,
        None => return malformed(raw, event_name, "Status"),
    };
    AmiEvent::Unload { module, status }
}

/// Reads a `LogChannel` event.
fn parse_log_channel(raw: &RawAmiMessage, event_name: &str) -> (r: AmiEvent)
    ensures
        r@ == typed_view(raw@, event_name@, EventKind::LogChannel, log_channel_fields()),
{
    proof {
        reveal_with_fuel(read_fields, 3);
    }
    let channel_log = match text_field(raw, "Channel") {
        Some(v) => v,
        None => return malformed(raw, event_name, "Channel"),
    };
    let enabled = match text_field(raw, "Enabled") {
        Some(v) => v,
        None => return malformed(raw, event_name, "Enabled"),
    };
    AmiEvent::LogChannel { channel_log, enabled }
}

/// Reads a `LoadAverageLimit` event.
fn parse_load_average_limit(raw: &RawAmiMessage, event_name: &str) -> (r: AmiEvent)
    ensures
        r@ == typed_view(raw@, event_name@, EventKind::LoadAverageLimit, load_average_limit_fields()),
{
    AmiEvent::LoadAverageLimit
}

/// Reads a `MemoryLimit` event.
fn parse_memory_limit(raw: &RawAmiMessage, event_name: &str) -> (r: AmiEvent)
    ensures
        r@ == typed_view(raw@, event_name@, EventKind::MemoryLimit, memory_limit_fields()),
{
    AmiEvent::MemoryLimit
}

/// Reads a `AsyncAGIStart` event.
fn parse_async_agi_start(raw: &RawAmiMessage, event_name: &str) -> (r: AmiEvent)
    ensures
        r@ == typed_view(raw@, event_name@, EventKind::AsyncAGIStart, async_agi_start_fields()),
{
    proof {
        reveal_with_fuel(read_fields, 4);
    }
    let channel = match text_field(raw, "Channel") {
        Some(v) => v,
        None => return malformed(raw, event_name, "Channel"),
    };
    let unique_id = match text_field(raw, "Uniqueid") {
        Some(v) => v,
        None => return malformed(raw, event_name, "Uniqueid"),
    };
    let env = match text_field(raw, "Env") {
        Some(v) => v,
        None => return malformed(raw, event_name, "Env"),
    };
    AmiEvent::AsyncAGIStart { channel, unique_id, env }
}

/// Reads a `AsyncAGIExec` event.
fn parse_async_agi_exec(raw: &RawAmiMessage, event_name: &str) -> (r: AmiEvent)
    ensures
        r@ == typed_view(raw@, event_name@, EventKind::AsyncAGIExec, async_agi_exec_fields()),
{
    proof {
        reveal_with_fuel(read_fields, 5);
    }
    let channel = match text_field(raw, "Channel") {
        Some(v) => v,
        None => return malformed(raw, event_name, "Channel"),
    };
    let unique_id = match text_field(raw, "Uniqueid") {
        Some(v) => v,
        None => return malformed(raw, event_name, "Uniqueid"),
    };
    let command_id = match text_field(raw, "CommandID") {
        Some(v) => v,
        None => return malformed(raw, event_name, "CommandID"),
    };
    let result = match text_field(raw, "Result") {
        Some(v) => v,
        None => return malformed(raw, event_name, "Result"),
    };
    AmiEvent::AsyncAGIExec { channel, unique_id, command_id, result }
}

/// Reads a `AsyncAGIEnd` event.
fn parse_async_agi_end(raw: &RawAmiMessage, event_name: &str) -> (r: AmiEvent)
    ensures
        r@ == typed_view(raw@, event_name@, EventKind::AsyncAGIEnd, async_agi_end_fields()),
{
    proof {
        reveal_with_fuel(read_fields, 3);
    }
    let channel = match text_field(raw, "Channel") {
        Some(v) => v,
        None => return malformed(raw, event_name, "Channel"),
    };
    let unique_id = match text_field(raw, "Uniqueid") {
        Some(v) => v,
        None => return malformed(raw, event_name, "Uniqueid"),
    };
    AmiEvent::AsyncAGIEnd { channel, unique_id }
}

/// Reads a `AGIExecStart` event.
fn parse_agi_exec_start(raw: &RawAmiMessage, event_name: &str) -> (r: AmiEvent)
    ensures
        r@ == typed_view(raw@, event_name@, EventKind::AGIExecStart, agi_exec_start_fields()),
{
    proof {
        reveal_with_fuel(read_fields, 5);
    }
    let channel = match text_field(raw, "Channel") {
        Some(v) => v,
        None => return malformed(raw, event_name, "Channel"),
    };
    let unique_id = match text_field(raw, "Uniqueid") {
        Some(v) => v,
        None => return malformed(raw, event_name, "Uniqueid"),
    };
    let command = match text_field(raw, "Command") {
        Some(v) => v,
        None => return malformed(raw, event_name, "Command"),
    };
    let command_id = match text_field(raw, "CommandId") {
        Some(v) => v,
        None => return malformed(raw, event_name, "CommandId"),
    };
    AmiEvent::AGIExecStart { channel, unique_id, command, command_id }
}

/// Reads a `AGIExecEnd` event.
fn parse_agi_exec_end(raw: &RawAmiMessage, event_name: &str) -> (r: AmiEvent)
    ensures
        r@ == typed_view(raw@, event_name@, EventKind::AGIExecEnd, agi_exec_end_fields()),
{
    proof {
        reveal_with_fuel(read_fields, 7);
    }
    let channel = match text_field(raw, "Channel") {
        Some(v) => v,
        None => return malformed(raw, event_name, "Channel"),
    };
    let unique_id = match text_field(raw, "Uniqueid") {
        Some(v) => v,
        None => return malformed(raw, event_name, "Uniqueid"),
    };
    let command = match text_field(raw, "Command") {
        Some(v) => v,
        None => return malformed(raw, event_name, "Command"),
    };
    let command_id = match text_field(raw, "CommandId") {
        Some(v) => v,
        None => return malformed(raw, event_name, "CommandId"),
    };
    let result_code = match text_field(raw, "ResultCode") {
        Some(v) => v,
        None => return malformed(raw, event_name, "ResultCode"),
    };
    let result = match text_field(raw, "Result") {
        Some(v) => v,
        None => return malformed(raw, event_name, "Result"),
    };
    AmiEvent::AGIExecEnd { channel, unique_id, command, command_id, result_code, result }
}

/// Reads a `HangupHandlerPush` event.
fn parse_hangup_handler_push(raw: &RawAmiMessage, event_name: &str) -> (r: AmiEvent)
    ensures
        r@ == typed_view(raw@, event_name@, EventKind::HangupHandlerPush, hangup_handler_push_fields()),
{
    proof {
        reveal_with_fuel(read_fields, 4);
    }
    let channel = match text_field(raw, "Channel") {
        Some(v) => v,
        None => return malformed(raw, event_name, "Channel"),
    };
    let unique_id = match text_field(raw, "Uniqueid") {
        Some(v) => v,
        None => return malformed(raw, event_name, "Uniqueid"),
    };
    let handler = match text_field(raw, "Handler") {
        Some(v) => v,
        None => return malformed(raw, event_name, "Handler"),
    };
    AmiEvent::HangupHandlerPush { channel, unique_id, handler }
}

/// Reads a `HangupHandlerPop` event.
fn parse_hangup_handler_pop(raw: &RawAmiMessage, event_name: &str) -> (r: AmiEvent)
    ensures
        r@ == typed_view(raw@, event_name@, EventKind::HangupHandlerPop, hangup_handler_pop_fields()),
{
    proof {
        reveal_with_fuel(read_fields, 4);
    }
    let channel = match text_field(raw, "Channel") {
        Some(v) => v,
        None => return malformed(raw, event_name, "Channel"),
    };
    let unique_id = match text_field(raw, "Uniqueid") {
        Some(v) => v,
        None => return malformed(raw, event_name, "Uniqueid"),
    };
    let handler = match text_field(raw, "Handler") {
        Some(v) => v,
        None => return malformed(raw, event_name, "Handler"),
    };
    AmiEvent::HangupHandlerPop { channel, unique_id, handler }
}

/// Reads a `HangupHandlerRun` event.
fn parse_hangup_handler_run(raw: &RawAmiMessage, event_name: &str) -> (r: AmiEvent)
    ensures
        r@ == typed_view(raw@, event_name@, EventKind::HangupHandlerRun, hangup_handler_run_fields()),
{
    proof {
        reveal_with_fuel(read_fields, 4);
    }
    let channel = match text_field(raw, "Channel") {
        Some(v) => v,
        None => return malformed(raw, event_name, "Channel"),
    };
    let unique_id = match text_field(raw, "Uniqueid") {
        Some(v) => v,
        None => return malformed(raw, event_name, "Uniqueid"),
    };
    let handler = match text_field(raw, "Handler") {
        Some(v) => v,
        None => return malformed(raw, event_name, "Handler"),
    };
    AmiEvent::HangupHandlerRun { channel, unique_id, handler }
}

/// Reads a `Status` event.
fn parse_status(raw: &RawAmiMessage, event_name: &str) -> (r: AmiEvent)
    ensures
        r@ == typed_view(raw@, event_name@, EventKind::Status, status_fields()),
{
    proof {
        reveal_with_fuel(read_fields, 13);
    }
    let channel = match text_field(raw, "Channel") {
        Some(v) => v,
        None => return malformed(raw, event_name, "Channel"),
    };
    let unique_id = match text_field(raw, "Uniqueid") {
        Some(v) => v,
        None => return malformed(raw, event_name, "Uniqueid"),
    };
    let channel_state = match text_field(raw, "ChannelState") {
        Some(v) => v,
        None => return malformed(raw, event_name, "ChannelState"),
    };
    let caller_id_num = match text_field(raw, "CallerIDNum") {
        Some(v) => v,
        None => return malformed(raw, event_name, "CallerIDNum"),
    };
    let caller_id_name = match text_field(raw, "CallerIDName") {
        Some(v) => v,
        None => return malformed(raw, event_name, "CallerIDName"),
    };
    let account_code = match text_field(raw, "AccountCode") {
        Some(v) => v,
        None => return malformed(raw, event_name, "AccountCode"),
    };
    let context = match text_field(raw, "Context") {
        Some(v) => v,
        None => return malformed(raw, event_name, "Context"),
    };
    let exten = match text_field(raw, "Exten") {
        Some(v) => v,
        None => return malformed(raw, event_name, "Exten"),
    };
    let priority = match number_field(raw, "Priority") {
        Some(v) => v,
        None => return malformed(raw, event_name, "Priority"),
    };
    let seconds = match number_field(raw, "Seconds") {
        Some(v) => v,
        None => return malformed(raw, event_name, "Seconds"),
    };
    let bridge_id = match text_field(raw, "BridgeID") {
        Some(v) => v,
        None => return malformed(raw, event_name, "BridgeID"),
    };
    let channel_variables = clone_pairs(&raw.channel_variables);
    AmiEvent::Status { channel, unique_id, channel_state, caller_id_num, caller_id_name, account_code, context, exten, priority, seconds, bridge_id, channel_variables }
}

/// Reads a `StatusComplete` event.
fn parse_status_complete(raw: &RawAmiMessage, event_name: &str) -> (r: AmiEvent)
    ensures
        r@ == typed_view(raw@, event_name@, EventKind::StatusComplete, status_complete_fields()),
{
    proof {
        reveal_with_fuel(read_fields, 2);
    }
    let items = match number_field(raw, "Items") {
        Some(v) => v,
        None => return malformed(raw, event_name, "Items"),
    };
    AmiEvent::StatusComplete { items }
}

/// Reads a `CoreShowChannel` event.
fn parse_core_show_channel(raw: &RawAmiMessage, event_name: &str) -> (r: AmiEvent)
    ensures
        r@ == typed_view(raw@, event_name@, EventKind::CoreShowChannel, core_show_channel_fields()),
{
    proof {
        reveal_with_fuel(read_fields, 11);
    }
    let channel = match text_field(raw, "Channel") {
        Some(v) => v,
        None => return malformed(raw, event_name, "Channel"),
    };
    let unique_id = match text_field(raw, "Uniqueid") {
        Some(v) => v,
        None => return malformed(raw, event_name, "Uniqueid"),
    };
    let channel_state = match text_field(raw, "ChannelState") {
        Some(v) => v,
        None => return malformed(raw, event_name, "ChannelState"),
    };
    let caller_id_num = match text_field(raw, "CallerIDNum") {
        Some(v) => v,
        None => return malformed(raw, event_name, "CallerIDNum"),
    };
    let caller_id_name = match text_field(raw, "CallerIDName") {
        Some(v) => v,
        None => return malformed(raw, event_name, "CallerIDName"),
    };
    let application = match text_field(raw, "Application") {
        Some(v) => v,
        None => return malformed(raw, event_name, "Application"),
    };
    let application_data = match text_field(raw, "ApplicationData") {
        Some(v) => v,
        None => return malformed(raw, event_name, "ApplicationData"),
    };
    let duration = match text_field(raw, "Duration") {
        Some(v) => v,
        None => return malformed(raw, event_name, "Duration"),
    };
    let bridge_id = match text_field(raw, "BridgeID") {
        Some(v) => v,
        None => return malformed(raw, event_name, "BridgeID"),
    };
    let channel_variables = clone_pairs(&raw.channel_variables);
    AmiEvent::CoreShowChannel { channel, unique_id, channel_state, caller_id_num, caller_id_name, application, application_data, duration, bridge_id, channel_variables }
}

/// Reads a `CoreShowChannelsComplete` event.
fn parse_core_show_channels_complete(raw: &RawAmiMessage, event_name: &str) -> (r: AmiEvent)
    ensures
        r@ == typed_view(raw@, event_name@, EventKind::CoreShowChannelsComplete, core_show_channels_complete_fields()),
{
    proof {
        reveal_with_fuel(read_fields, 2);
    }
    let listed_channels = match number_field(raw, "ListItems") {
        Some(v) => v,
        None => return malformed(raw, event_name, "ListItems"),
    };
    AmiEvent::CoreShowChannelsComplete { listed_channels }
}

/// Reads a `CoreShowChannelMapComplete` event.
fn parse_core_show_channel_map_complete(raw: &RawAmiMessage, event_name: &str) -> (r: AmiEvent)
    ensures
        r@ == typed_view(raw@, event_name@, EventKind::CoreShowChannelMapComplete, core_show_channel_map_complete_fields()),
{
    AmiEvent::CoreShowChannelMapComplete
}

/// Reads a `DAHDIChannel` event.
fn parse_dahdi_channel(raw: &RawAmiMessage, event_name: &str) -> (r: AmiEvent)
    ensures
        r@ == typed_view(raw@, event_name@, EventKind::DAHDIChannel, dahdi_channel_fields()),
{
    proof {
        reveal_with_fuel(read_fields, 4);
    }
    let dahdi_channel = match text_field(raw, "DAHDIChannel") {
        Some(v) => v,
        None => return malformed(raw, event_name, "DAHDIChannel"),
    };
    let channel = optional_field(raw, "Channel");
    let unique_id = optional_field(raw, "Uniqueid");
    AmiEvent::DAHDIChannel { dahdi_channel, channel, unique_id }
}

/// Reads a `Alarm` event.
fn parse_alarm(raw: &RawAmiMessage, event_name: &str) -> (r: AmiEvent)
    ensures
        r@ == typed_view(raw@, event_name@, EventKind::Alarm, alarm_fields()),
{
    proof {
        reveal_with_fuel(read_fields, 3);
    }
    let alarm = match text_field(raw, "Alarm") {
        Some(v) => v,
        None => return malformed(raw, event_name, "Alarm"),
    };
    let channel_dahdi = match text_field(raw, "Channel") {
        Some(v) => v,
        None => return malformed(raw, event_name, "Channel"),
    };
    AmiEvent::Alarm { alarm, channel_dahdi }
}

/// Reads a `AlarmClear` event.
fn parse_alarm_clear(raw: &RawAmiMessage, event_name: &str) -> (r: AmiEvent)
    ensures
        r@ == typed_view(raw@, event_name@, EventKind::AlarmClear, alarm_clear_fields()),
{
    proof {
        reveal_with_fuel(read_fields, 2);
    }
    let channel_dahdi = match text_field(raw, "Channel") {
        Some(v) => v,
        None => return malformed(raw, event_name, "Channel"),
    };
    AmiEvent::AlarmClear { channel_dahdi }
}

/// Reads a `SpanAlarm` event.
fn parse_span_alarm(raw: &RawAmiMessage, event_name: &str) -> (r: AmiEvent)
    ensures
        r@ == typed_view(raw@, event_name@, EventKind::SpanAlarm, span_alarm_fields()),
{
    proof {
        reveal_with_fuel(read_fields, 3);
    }
    let span = match number_field(raw, "Span") {
        Some(v) => v,
        None => return malformed(raw, event_name, "Span"),
    };
    let alarm = match text_field(raw, "Alarm") {
        Some(v) => v,
        None => return malformed(raw, event_name, "Alarm"),
    };
    AmiEvent::SpanAlarm { span, alarm }
}

/// Reads a `SpanAlarmClear` event.
fn parse_span_alarm_clear(raw: &RawAmiMessage, event_name: &str) -> (r: AmiEvent)
    ensures
        r@ == typed_view(raw@, event_name@, EventKind::SpanAlarmClear, span_alarm_clear_fields()),
{
    proof {
        reveal_with_fuel(read_fields, 2);
    }
    let span = match number_field(raw, "Span") {
        Some(v) => v,
        None => return malformed(raw, event_name, "Span"),
    };
    AmiEvent::SpanAlarmClear { span }
}

/// Reads a `AOC-D` event.
fn parse_aoc_d(raw: &RawAmiMessage, event_name: &str) -> (r: AmiEvent)
    ensures
        r@ == typed_view(raw@, event_name@, EventKind::AocD, aoc_d_fields()),
{
    proof {
        reveal_with_fuel(read_fields, 4);
    }
    let channel = match text_field(raw, "Channel") {
        Some(v) => v,
        None => return malformed(raw, event_name, "Channel"),
    };
    let unique_id = match text_field(raw, "Uniqueid") {
        Some(v) => v,
        None => return malformed(raw, event_name, "Uniqueid"),
    };
    let charge_type = match text_field(raw, "ChargeType") {
        Some(v) => v,
        None => return malformed(raw, event_name, "ChargeType"),
    };
    AmiEvent::AocD { channel, unique_id, charge_type }
}

/// Reads a `AOC-E` event.
fn parse_aoc_e(raw: &RawAmiMessage, event_name: &str) -> (r: AmiEvent)
    ensures
        r@ == typed_view(raw@, event_name@, EventKind::AocE, aoc_e_fields()),
{
    proof {
        reveal_with_fuel(read_fields, 4);
    }
    let channel = match text_field(raw, "Channel") {
        Some(v) => v,
        None => return malformed(raw, event_name, "Channel"),
    };
    let unique_id = match text_field(raw, "Uniqueid") {
        Some(v) => v,
        None => return malformed(raw, event_name, "Uniqueid"),
    };
    let charge_type = match text_field(raw, "ChargeType") {
        Some(v) => v,
        None => return malformed(raw, event_name, "ChargeType"),
    };
    AmiEvent::AocE { channel, unique_id, charge_type }
}

/// Reads a `AOC-S` event.
fn parse_aoc_s(raw: &RawAmiMessage, event_name: &str) -> (r: AmiEvent)
    ensures
        r@ == typed_view(raw@, event_name@, EventKind::AocS, aoc_s_fields()),
{
    proof {
        reveal_with_fuel(read_fields, 3);
    }
    let channel = match text_field(raw, "Channel") {
        Some(v) => v,
        None => return malformed(raw, event_name, "Channel"),
    };
    let unique_id = match text_field(raw, "Uniqueid") {
        Some(v) => v,
        None => return malformed(raw, event_name, "Uniqueid"),
    };
    AmiEvent::AocS { channel, unique_id }
}

/// Reads a `FAXStatus` event.
fn parse_fax_status(raw: &RawAmiMessage, event_name: &str) -> (r: AmiEvent)
    ensures
        r@ == typed_view(raw@, event_name@, EventKind::FAXStatus, fax_status_fields()),
{
    proof {
        reveal_with_fuel(read_fields, 7);
    }
    let channel = match text_field(raw, "Channel") {
        Some(v) => v,
        None => return malformed(raw, event_name, "Channel"),
    };
    let unique_id = match text_field(raw, "Uniqueid") {
        Some(v) => v,
        None => return malformed(raw, event_name, "Uniqueid"),
    };
    let operation = match text_field(raw, "Operation") {
        Some(v) => v,
        None => return malformed(raw, event_name, "Operation"),
    };
    let status = match text_field(raw, "Status") {
        Some(v) => v,
        None => return malformed(raw, event_name, "Status"),
    };
    let local_station_id = match text_field(raw, "LocalStationID") {
        Some(v) => v,
        None => return malformed(raw, event_name, "LocalStationID"),
    };
    let filename = match text_field(raw, "FileName") {
        Some(v) => v,
        None => return malformed(raw, event_name, "FileName"),
    };
    AmiEvent::FAXStatus { channel, unique_id, operation, status, local_station_id, filename }
}

/// Reads a `ReceiveFAX` event.
fn parse_receive_fax(raw: &RawAmiMessage, event_name: &str) -> (r: AmiEvent)
    ensures
        r@ == typed_view(raw@, event_name@, EventKind::ReceiveFAX, receive_fax_fields()),
{
    proof {
        reveal_with_fuel(read_fields, 8);
    }
    let channel = match text_field(raw, "Channel") {
        Some(v) => v,
        None => return malformed(raw, event_name, "Channel"),
    };
    let unique_id = match text_field(raw, "Uniqueid") {
        Some(v) => v,
        None => return malformed(raw, event_name, "Uniqueid"),
    };
    let local_station_id = match text_field(raw, "LocalStationID") {
        Some(v) => v,
        None => return malformed(raw, event_name, "LocalStationID"),
    };
    let remote_station_id = match text_field(raw, "RemoteStationID") {
        Some(v) => v,
        None => return malformed(raw, event_name, "RemoteStationID"),
    };
    let pages_transferred = match number_field(raw, "PagesTransferred") {
        Some(v) => v,
        None => return malformed(raw, event_name, "PagesTransferred"),
    };
    let resolution = match text_field(raw, "Resolution") {
        Some(v) => v,
        None => return malformed(raw, event_name, "Resolution"),
    };
    let filename = match text_field(raw, "FileName") {
        Some(v) => v,
        None => return malformed(raw, event_name, "FileName"),
    };
    AmiEvent::ReceiveFAX { channel, unique_id, local_station_id, remote_station_id, pages_transferred, resolution, filename }
}

/// Reads a `SendFAX` event.
fn parse_send_fax(raw: &RawAmiMessage, event_name: &str) -> (r: AmiEvent)
    ensures
        r@ == typed_view(raw@, event_name@, EventKind::SendFAX, send_fax_fields()),
{
    proof {
        reveal_with_fuel(read_fields, 8);
    }
    let channel = match text_field(raw, "Channel") {
        Some(v) => v,
        None => return malformed(raw, event_name, "Channel"),
    };
    let unique_id = match text_field(raw, "Uniqueid") {
        Some(v) => v,
        None => return malformed(raw, event_name, "Uniqueid"),
    };
    let local_station_id = match text_field(raw, "LocalStationID") {
        Some(v) => v,
        None => return malformed(raw, event_name, "LocalStationID"),
    };
    let remote_station_id = match text_field(raw, "RemoteStationID") {
        Some(v) => v,
        None => return malformed(raw, event_name, "RemoteStationID"),
    };
    let pages_transferred = match number_field(raw, "PagesTransferred") {
        Some(v) => v,
        None => return malformed(raw, event_name, "PagesTransferred"),
    };
    let resolution = match text_field(raw, "Resolution") {
        Some(v) => v,
        None => return malformed(raw, event_name, "Resolution"),
    };
    let filename = match text_field(raw, "FileName") {
        Some(v) => v,
        None => return malformed(raw, event_name, "FileName"),
    };
    AmiEvent::SendFAX { channel, unique_id, local_station_id, remote_station_id, pages_transferred, resolution, filename }
}

/// Reads a `MeetmeJoin` event.
fn parse_meetme_join(raw: &RawAmiMessage, event_name: &str) -> (r: AmiEvent)
    ensures
        r@ == typed_view(raw@, event_name@, EventKind::MeetmeJoin, meetme_join_fields()),
{
    proof {
        reveal_with_fuel(read_fields, 5);
    }
    let meetme = match text_field(raw, "Meetme") {
        Some(v) => v,
        None => return malformed(raw, event_name, "Meetme"),
    };
    let user_num = match text_field(raw, "Usernum") {
        Some(v) => v,
        None => return malformed(raw, event_name, "Usernum"),
    };
    let channel = match text_field(raw, "Channel") {
        Some(v) => v,
        None => return malformed(raw, event_name, "Channel"),
    };
    let unique_id = match text_field(raw, "Uniqueid") {
        Some(v) => v,
        None => return malformed(raw, event_name, "Uniqueid"),
    };
    AmiEvent::MeetmeJoin { meetme, user_num, channel, unique_id }
}

/// Reads a `MeetmeLeave` event.
fn parse_meetme_leave(raw: &RawAmiMessage, event_name: &str) -> (r: AmiEvent)
    ensures
        r@ == typed_view(raw@, event_name@, EventKind::MeetmeLeave, meetme_leave_fields()),
{
    proof {
        reveal_with_fuel(read_fields, 6);
    }
    let meetme = match text_field(raw, "Meetme") {
        Some(v) => v,
        None => return malformed(raw, event_name, "Meetme"),
    };
    let user_num = match text_field(raw, "Usernum") {
        Some(v) => v,
        None => return malformed(raw, event_name, "Usernum"),
    };
    let channel = match text_field(raw, "Channel") {
        Some(v) => v,
        None => return malformed(raw, event_name, "Channel"),
    };
    let unique_id = match text_field(raw, "Uniqueid") {
        Some(v) => v,
        None => return malformed(raw, event_name, "Uniqueid"),
    };
    let duration = match number_field(raw, "Duration") {
        Some(v) => v,
        None => return malformed(raw, event_name, "Duration"),
    };
    AmiEvent::MeetmeLeave { meetme, user_num, channel, unique_id, duration }
}

/// Reads a `MeetmeEnd` event.
fn parse_meetme_end(raw: &RawAmiMessage, event_name: &str) -> (r: AmiEvent)
    ensures
        r@ == typed_view(raw@, event_name@, EventKind::MeetmeEnd, meetme_end_fields()),
{
    proof {
        reveal_with_fuel(read_fields, 2);
    }
    let meetme = match text_field(raw, "Meetme") {
        Some(v) => v,
        None => return malformed(raw, event_name, "Meetme"),
    };
    AmiEvent::MeetmeEnd { meetme }
}

/// Reads a `MeetmeMute` event.
fn parse_meetme_mute(raw: &RawAmiMessage, event_name: &str) -> (r: AmiEvent)
    ensures
        r@ == typed_view(raw@, event_name@, EventKind::MeetmeMute, meetme_mute_fields()),
{
    proof {
        reveal_with_fuel(read_fields, 6);
    }
    let meetme = match text_field(raw, "Meetme") {
        Some(v) => v,
        None => return malformed(raw, event_name, "Meetme"),
    };
    let user_num = match text_field(raw, "Usernum") {
        Some(v) => v,
        None => return malformed(raw, event_name, "Usernum"),
    };
    let channel = match text_field(raw, "Channel") {
        Some(v) => v,
        None => return malformed(raw, event_name, "Channel"),
    };
    let unique_id = match text_field(raw, "Uniqueid") {
        Some(v) => v,
        None => return malformed(raw, event_name, "Uniqueid"),
    };
    let status = match text_field(raw, "Status") {
        Some(v) => v,
        None => return malformed(raw, event_name, "Status"),
    };
    AmiEvent::MeetmeMute { meetme, user_num, channel, unique_id, status }
}

/// Reads a `MeetmeTalking` event.
fn parse_meetme_talking(raw: &RawAmiMessage, event_name: &str) -> (r: AmiEvent)
    ensures
        r@ == typed_view(raw@, event_name@, EventKind::MeetmeTalking, meetme_talking_fields()),
{
    proof {
        reveal_with_fuel(read_fields, 6);
    }
    let meetme = match text_field(raw, "Meetme") {
        Some(v) => v,
        None => return malformed(raw, event_name, "Meetme"),
    };
    let user_num = match text_field(raw, "Usernum") {
        Some(v) => v,
        None => return malformed(raw, event_name, "Usernum"),
    };
    let channel = match text_field(raw, "Channel") {
        Some(v) => v,
        None => return malformed(raw, event_name, "Channel"),
    };
    let unique_id = match text_field(raw, "Uniqueid") {
        Some(v) => v,
        None => return malformed(raw, event_name, "Uniqueid"),
    };
    let status = match text_field(raw, "Status") {
        Some(v) => v,
        None => return malformed(raw, event_name, "Status"),
    };
    AmiEvent::MeetmeTalking { meetme, user_num, channel, unique_id, status }
}

/// Reads a `MeetmeTalkRequest` event.
fn parse_meetme_talk_request(raw: &RawAmiMessage, event_name: &str) -> (r: AmiEvent)
    ensures
        r@ == typed_view(raw@, event_name@, EventKind::MeetmeTalkRequest, meetme_talk_request_fields()),
{
    proof {
        reveal_with_fuel(read_fields, 6);
    }
    let meetme = match text_field(raw, "Meetme") {
        Some(v) => v,
        None => return malformed(raw, event_name, "Meetme"),
    };
    let user_num = match text_field(raw, "Usernum") {
        Some(v) => v,
        None => return malformed(raw, event_name, "Usernum"),
    };
    let channel = match text_field(raw, "Channel") {
        Some(v) => v,
        None => return malformed(raw, event_name, "Channel"),
    };
    let unique_id = match text_field(raw, "Uniqueid") {
        Some(v) => v,
        None => return malformed(raw, event_name, "Uniqueid"),
    };
    let status = match text_field(raw, "Status") {
        Some(v) => v,
        None => return malformed(raw, event_name, "Status"),
    };
    AmiEvent::MeetmeTalkRequest { meetme, user_num, channel, unique_id, status }
}

/// Reads a `MeetmeList` event.
fn parse_meetme_list(raw: &RawAmiMessage, event_name: &str) -> (r: AmiEvent)
    ensures
        r@ == typed_view(raw@, event_name@, EventKind::MeetmeList, meetme_list_fields()),
{
    proof {
        reveal_with_fuel(read_fields, 8);
    }
    let meetme = match text_field(raw, "Meetme") {
        Some(v) => v,
        None => return malformed(raw, event_name, "Meetme"),
    };
    let user_num = match text_field(raw, "Usernum") {
        Some(v) => v,
        None => return malformed(raw, event_name, "Usernum"),
    };
    let channel = match text_field(raw, "Channel") {
        Some(v) => v,
        None => return malformed(raw, event_name, "Channel"),
    };
    let unique_id = match text_field(raw, "Uniqueid") {
        Some(v) => v,
        None => return malformed(raw, event_name, "Uniqueid"),
    };
    let admin = match text_field(raw, "Admin") {
        Some(v) => v,
        None => return malformed(raw, event_name, "Admin"),
    };
    let muted = match text_field(raw, "Muted") {
        Some(v) => v,
        None => return malformed(raw, event_name, "Muted"),
    };
    let talking = match text_field(raw, "Talking") {
        Some(v) => v,
        None => return malformed(raw, event_name, "Talking"),
    };
    AmiEvent::MeetmeList { meetme, user_num, channel, unique_id, admin, muted, talking }
}

/// Reads a `MeetmeListRooms` event.
fn parse_meetme_list_rooms(raw: &RawAmiMessage, event_name: &str) -> (r: AmiEvent)
    ensures
        r@ == typed_view(raw@, event_name@, EventKind::MeetmeListRooms, meetme_list_rooms_fields()),
{
    proof {
        reveal_with_fuel(read_fields, 5);
    }
    let conference = match text_field(raw, "Conference") {
        Some(v) => v,
        None => return malformed(raw, event_name, "Conference"),
    };
    let parties = match number_field(raw, "Parties") {
        Some(v) => v,
        None => return malformed(raw, event_name, "Parties"),
    };
    let marked = match number_field(raw, "Marked") {
        Some(v) => v,
        None => return malformed(raw, event_name, "Marked"),
    };
    let locked = match text_field(raw, "Locked") {
        Some(v) => v,
        None => return malformed(raw, event_name, "Locked"),
    };
    AmiEvent::MeetmeListRooms { conference, parties, marked, locked }
}

/// Reads a `DeviceStateListComplete` event.
fn parse_device_state_list_complete(raw: &RawAmiMessage, event_name: &str) -> (r: AmiEvent)
    ensures
        r@ == typed_view(raw@, event_name@, EventKind::DeviceStateListComplete, device_state_list_complete_fields()),
{
    proof {
        reveal_with_fuel(read_fields, 2);
    }
    let items = match number_field(raw, "ListItems") {
        Some(v) => v,
        None => return malformed(raw, event_name, "ListItems"),
    };
    AmiEvent::DeviceStateListComplete { items }
}

/// Reads a `ExtensionStateListComplete` event.
fn parse_extension_state_list_complete(raw: &RawAmiMessage, event_name: &str) -> (r: AmiEvent)
    ensures
        r@ == typed_view(raw@, event_name@, EventKind::ExtensionStateListComplete, extension_state_list_complete_fields()),
{
    proof {
        reveal_with_fuel(read_fields, 2);
    }
    let items = match number_field(raw, "ListItems") {
        Some(v) => v,
        None => return malformed(raw, event_name, "ListItems"),
    };
    AmiEvent::ExtensionStateListComplete { items }
}

/// Reads a `PresenceStateListComplete` event.
fn parse_presence_state_list_complete(raw: &RawAmiMessage, event_name: &str) -> (r: AmiEvent)
    ensures
        r@ == typed_view(raw@, event_name@, EventKind::PresenceStateListComplete, presence_state_list_complete_fields()),
{
    proof {
        reveal_with_fuel(read_fields, 2);
    }
    let items = match number_field(raw, "ListItems") {
        Some(v) => v,
        None => return malformed(raw, event_name, "ListItems"),
    };
    AmiEvent::PresenceStateListComplete { items }
}

/// Reads a `AorDetail` event.
fn parse_aor_detail(raw: &RawAmiMessage, event_name: &str) -> (r: AmiEvent)
    ensures
        r@ == typed_view(raw@, event_name@, EventKind::AorDetail, aor_detail_fields()),
{
    proof {
        reveal_with_fuel(read_fields, 3);
    }
    let object_name = match text_field(raw, "ObjectName") {
        Some(v) => v,
        None => return malformed(raw, event_name, "ObjectName"),
    };
    let contacts = match text_field(raw, "Contacts") {
        Some(v) => v,
        None => return malformed(raw, event_name, "Contacts"),
    };
    AmiEvent::AorDetail { object_name, contacts }
}

/// Reads a `AorList` event.
fn parse_aor_list(raw: &RawAmiMessage, event_name: &str) -> (r: AmiEvent)
    ensures
        r@ == typed_view(raw@, event_name@, EventKind::AorList, aor_list_fields()),
{
    proof {
        reveal_with_fuel(read_fields, 2);
    }
    let object_name = match text_field(raw, "ObjectName") {
        Some(v) => v,
        None => return malformed(raw, event_name, "ObjectName"),
    };
    AmiEvent::AorList { object_name }
}

/// Reads a `AorListComplete` event.
fn parse_aor_list_complete(raw: &RawAmiMessage, event_name: &str) -> (r: AmiEvent)
    ensures
        r@ == typed_view(raw@, event_name@, EventKind::AorListComplete, aor_list_complete_fields()),
{
    proof {
        reveal_with_fuel(read_fields, 2);
    }
    let items = match number_field(raw, "ListItems") {
        Some(v) => v,
        None => return malformed(raw, event_name, "ListItems"),
    };
    AmiEvent::AorListComplete { items }
}

/// Reads a `AuthDetail` event.
fn parse_auth_detail(raw: &RawAmiMessage, event_name: &str) -> (r: AmiEvent)
    ensures
        r@ == typed_view(raw@, event_name@, EventKind::AuthDetail, auth_detail_fields()),
{
    proof {
        reveal_with_fuel(read_fields, 3);
    }
    let object_name = match text_field(raw, "ObjectName") {
        Some(v) => v,
        None => return malformed(raw, event_name, "ObjectName"),
    };
    let username = match text_field(raw, "Username") {
        Some(v) => v,
        None => return malformed(raw, event_name, "Username"),
    };
    AmiEvent::AuthDetail { object_name, username }
}

/// Reads a `AuthList` event.
fn parse_auth_list(raw: &RawAmiMessage, event_name: &str) -> (r: AmiEvent)
    ensures
        r@ == typed_view(raw@, event_name@, EventKind::AuthList, auth_list_fields()),
{
    proof {
        reveal_with_fuel(read_fields, 2);
    }
    let object_name = match text_field(raw, "ObjectName") {
        Some(v) => v,
        None => return malformed(raw, event_name, "ObjectName"),
    };
    AmiEvent::AuthList { object_name }
}

/// Reads a `AuthListComplete` event.
fn parse_auth_list_complete(raw: &RawAmiMessage, event_name: &str) -> (r: AmiEvent)
    ensures
        r@ == typed_view(raw@, event_name@, EventKind::AuthListComplete, auth_list_complete_fields()),
{
    proof {
        reveal_with_fuel(read_fields, 2);
    }
    let items = match number_field(raw, "ListItems") {
        Some(v) => v,
        None => return malformed(raw, event_name, "ListItems"),
    };
    AmiEvent::AuthListComplete { items }
}

/// Reads a `ContactList` event.
fn parse_contact_list(raw: &RawAmiMessage, event_name: &str) -> (r: AmiEvent)
    ensures
        r@ == typed_view(raw@, event_name@, EventKind::ContactList, contact_list_fields()),
{
    proof {
        reveal_with_fuel(read_fields, 4);
    }
    let uri = match text_field(raw, "URI") {
        Some(v) => v,
        None => return malformed(raw, event_name, "URI"),
    };
    let contact_status = match text_field(raw, "ContactStatus") {
        Some(v) => v,
        None => return malformed(raw, event_name, "ContactStatus"),
    };
    let aor = match text_field(raw, "AOR") {
        Some(v) => v,
        None => return malformed(raw, event_name, "AOR"),
    };
    AmiEvent::ContactList { uri, contact_status, aor }
}

/// Reads a `ContactListComplete` event.
fn parse_contact_list_complete(raw: &RawAmiMessage, event_name: &str) -> (r: AmiEvent)
    ensures
        r@ == typed_view(raw@, event_name@, EventKind::ContactListComplete, contact_list_complete_fields()),
{
    proof {
        reveal_with_fuel(read_fields, 2);
    }
    let items = match number_field(raw, "ListItems") {
        Some(v) => v,
        None => return malformed(raw, event_name, "ListItems"),
    };
    AmiEvent::ContactListComplete { items }
}

/// Reads a `ContactStatusDetail` event.
fn parse_contact_status_detail(raw: &RawAmiMessage, event_name: &str) -> (r: AmiEvent)
    ensures
        r@ == typed_view(raw@, event_name@, EventKind::ContactStatusDetail, contact_status_detail_fields()),
{
    proof {
        reveal_with_fuel(read_fields, 4);
    }
    let uri = match text_field(raw, "URI") {
        Some(v) => v,
        None => return malformed(raw, event_name, "URI"),
    };
    let contact_status = match text_field(raw, "ContactStatus") {
        Some(v) => v,
        None => return malformed(raw, event_name, "ContactStatus"),
    };
    let aor = match text_field(raw, "AOR") {
        Some(v) => v,
        None => return malformed(raw, event_name, "AOR"),
    };
    AmiEvent::ContactStatusDetail { uri, contact_status, aor }
}

/// Reads a `EndpointDetail` event.
fn parse_endpoint_detail(raw: &RawAmiMessage, event_name: &str) -> (r: AmiEvent)
    ensures
        r@ == typed_view(raw@, event_name@, EventKind::EndpointDetail, endpoint_detail_fields()),
{
    proof {
        reveal_with_fuel(read_fields, 4);
    }
    let object_name = match text_field(raw, "ObjectName") {
        Some(v) => v,
        None => return malformed(raw, event_name, "ObjectName"),
    };
    let device_state = match text_field(raw, "DeviceState") {
        Some(v) => v,
        None => return malformed(raw, event_name, "DeviceState"),
    };
    let active_channels = match text_field(raw, "ActiveChannels") {
        Some(v) => v,
        None => return malformed(raw, event_name, "ActiveChannels"),
    };
    AmiEvent::EndpointDetail { object_name, device_state, active_channels }
}

/// Reads a `EndpointDetailComplete` event.
fn parse_endpoint_detail_complete(raw: &RawAmiMessage, event_name: &str) -> (r: AmiEvent)
    ensures
        r@ == typed_view(raw@, event_name@, EventKind::EndpointDetailComplete, endpoint_detail_complete_fields()),
{
    proof {
        reveal_with_fuel(read_fields, 2);
    }
    let items = match number_field(raw, "ListItems") {
        Some(v) => v,
        None => return malformed(raw, event_name, "ListItems"),
    };
    AmiEvent::EndpointDetailComplete { items }
}

/// Reads a `EndpointList` event.
fn parse_endpoint_list(raw: &RawAmiMessage, event_name: &str) -> (r: AmiEvent)
    ensures
        r@ == typed_view(raw@, event_name@, EventKind::EndpointList, endpoint_list_fields()),
{
    proof {
        reveal_with_fuel(read_fields, 4);
    }
    let object_name = match text_field(raw, "ObjectName") {
        Some(v) => v,
        None => return malformed(raw, event_name, "ObjectName"),
    };
    let transport = match text_field(raw, "Transport") {
        Some(v) => v,
        None => return malformed(raw, event_name, "Transport"),
    };
    let aor = match text_field(raw, "Aor") {
        Some(v) => v,
        None => return malformed(raw, event_name, "Aor"),
    };
    AmiEvent::EndpointList { object_name, transport, aor }
}

/// Reads a `EndpointListComplete` event.
fn parse_endpoint_list_complete(raw: &RawAmiMessage, event_name: &str) -> (r: AmiEvent)
    ensures
        r@ == typed_view(raw@, event_name@, EventKind::EndpointListComplete, endpoint_list_complete_fields()),
{
    proof {
        reveal_with_fuel(read_fields, 2);
    }
    let items = match number_field(raw, "ListItems") {
        Some(v) => v,
        None => return malformed(raw, event_name, "ListItems"),
    };
    AmiEvent::EndpointListComplete { items }
}

/// Reads a `IdentifyDetail` event.
fn parse_identify_detail(raw: &RawAmiMessage, event_name: &str) -> (r: AmiEvent)
    ensures
        r@ == typed_view(raw@, event_name@, EventKind::IdentifyDetail, identify_detail_fields()),
{
    proof {
        reveal_with_fuel(read_fields, 3);
    }
    let object_name = match text_field(raw, "ObjectName") {
        Some(v) => v,
        None => return malformed(raw, event_name, "ObjectName"),
    };
    let endpoint = match text_field(raw, "Endpoint") {
        Some(v) => v,
        None => return malformed(raw, event_name, "Endpoint"),
    };
    AmiEvent::IdentifyDetail { object_name, endpoint }
}

/// Reads a `TransportDetail` event.
fn parse_transport_detail(raw: &RawAmiMessage, event_name: &str) -> (r: AmiEvent)
    ensures
        r@ == typed_view(raw@, event_name@, EventKind::TransportDetail, transport_detail_fields()),
{
    proof {
        reveal_with_fuel(read_fields, 3);
    }
    let object_name = match text_field(raw, "ObjectName") {
        Some(v) => v,
        None => return malformed(raw, event_name, "ObjectName"),
    };
    let protocol = match text_field(raw, "Protocol") {
        Some(v) => v,
        None => return malformed(raw, event_name, "Protocol"),
    };
    AmiEvent::TransportDetail { object_name, protocol }
}

/// Reads a `ResourceListDetail` event.
fn parse_resource_list_detail(raw: &RawAmiMessage, event_name: &str) -> (r: AmiEvent)
    ensures
        r@ == typed_view(raw@, event_name@, EventKind::ResourceListDetail, resource_list_detail_fields()),
{
    proof {
        reveal_with_fuel(read_fields, 2);
    }
    let object_name = match text_field(raw, "ObjectName") {
        Some(v) => v,
        None => return malformed(raw, event_name, "ObjectName"),
    };
    AmiEvent::ResourceListDetail { object_name }
}

/// Reads a `InboundRegistrationDetail` event.
fn parse_inbound_registration_detail(raw: &RawAmiMessage, event_name: &str) -> (r: AmiEvent)
    ensures
        r@ == typed_view(raw@, event_name@, EventKind::InboundRegistrationDetail, inbound_registration_detail_fields()),
{
    proof {
        reveal_with_fuel(read_fields, 3);
    }
    let object_name = match text_field(raw, "ObjectName") {
        Some(v) => v,
        None => return malformed(raw, event_name, "ObjectName"),
    };
    let contacts = match text_field(raw, "Contacts") {
        Some(v) => v,
        None => return malformed(raw, event_name, "Contacts"),
    };
    AmiEvent::InboundRegistrationDetail { object_name, contacts }
}

/// Reads a `OutboundRegistrationDetail` event.
fn parse_outbound_registration_detail(raw: &RawAmiMessage, event_name: &str) -> (r: AmiEvent)
    ensures
        r@ == typed_view(raw@, event_name@, EventKind::OutboundRegistrationDetail, outbound_registration_detail_fields()),
{
    proof {
        reveal_with_fuel(read_fields, 3);
    }
    let object_name = match text_field(raw, "ObjectName") {
        Some(v) => v,
        None => return malformed(raw, event_name, "ObjectName"),
    };
    let server_uri = match text_field(raw, "ServerUri") {
        Some(v) => v,
        None => return malformed(raw, event_name, "ServerUri"),
    };
    AmiEvent::OutboundRegistrationDetail { object_name, server_uri }
}

/// Reads a `InboundSubscriptionDetail` event.
fn parse_inbound_subscription_detail(raw: &RawAmiMessage, event_name: &str) -> (r: AmiEvent)
    ensures
        r@ == typed_view(raw@, event_name@, EventKind::InboundSubscriptionDetail, inbound_subscription_detail_fields()),
{
    proof {
        reveal_with_fuel(read_fields, 2);
    }
    let object_name = match text_field(raw, "ObjectName") {
        Some(v) => v,
        None => return malformed(raw, event_name, "ObjectName"),
    };
    AmiEvent::InboundSubscriptionDetail { object_name }
}

/// Reads a `OutboundSubscriptionDetail` event.
fn parse_outbound_subscription_detail(raw: &RawAmiMessage, event_name: &str) -> (r: AmiEvent)
    ensures
        r@ == typed_view(raw@, event_name@, EventKind::OutboundSubscriptionDetail, outbound_subscription_detail_fields()),
{
    proof {
        reveal_with_fuel(read_fields, 2);
    }
    let object_name = match text_field(raw, "ObjectName") {
        Some(v) => v,
        None => return malformed(raw, event_name, "ObjectName"),
    };
    AmiEvent::OutboundSubscriptionDetail { object_name }
}

/// Reads a `MWIGet` event.
fn parse_mwi_get(raw: &RawAmiMessage, event_name: &str) -> (r: AmiEvent)
    ensures
        r@ == typed_view(raw@, event_name@, EventKind::MWIGet, mwi_get_fields()),
{
    proof {
        reveal_with_fuel(read_fields, 4);
    }
    let mailbox = match text_field(raw, "Mailbox") {
        Some(v) => v,
        None => return malformed(raw, event_name, "Mailbox"),
    };
    let old_messages = match number_field(raw, "OldMessages") {
        Some(v) => v,
        None => return malformed(raw, event_name, "OldMessages"),
    };
    let new_messages = match number_field(raw, "NewMessages") {
        Some(v) => v,
        None => return malformed(raw, event_name, "NewMessages"),
    };
    AmiEvent::MWIGet { mailbox, old_messages, new_messages }
}

/// Reads a `MWIGetComplete` event.
fn parse_mwi_get_complete(raw: &RawAmiMessage, event_name: &str) -> (r: AmiEvent)
    ensures
        r@ == typed_view(raw@, event_name@, EventKind::MWIGetComplete, mwi_get_complete_fields()),
{
    proof {
        reveal_with_fuel(read_fields, 2);
    }
    let items = match number_field(raw, "ListItems") {
        Some(v) => v,
        None => return malformed(raw, event_name, "ListItems"),
    };
    AmiEvent::MWIGetComplete { items }
}

/// Reads a `MiniVoiceMail` event.
fn parse_mini_voice_mail(raw: &RawAmiMessage, event_name: &str) -> (r: AmiEvent)
    ensures
        r@ == typed_view(raw@, event_name@, EventKind::MiniVoiceMail, mini_voice_mail_fields()),
{
    proof {
        reveal_with_fuel(read_fields, 5);
    }
    let channel = match text_field(raw, "Channel") {
        Some(v) => v,
        None => return malformed(raw, event_name, "Channel"),
    };
    let unique_id = match text_field(raw, "Uniqueid") {
        Some(v) => v,
        None => return malformed(raw, event_name, "Uniqueid"),
    };
    let mailbox = match text_field(raw, "Mailbox") {
        Some(v) => v,
        None => return malformed(raw, event_name, "Mailbox"),
    };
    let counter = match text_field(raw, "Counter") {
        Some(v) => v,
        None => return malformed(raw, event_name, "Counter"),
    };
    AmiEvent::MiniVoiceMail { channel, unique_id, mailbox, counter }
}

/// Reads a `FAXSession` event.
fn parse_fax_session(raw: &RawAmiMessage, event_name: &str) -> (r: AmiEvent)
    ensures
        r@ == typed_view(raw@, event_name@, EventKind::FAXSession, fax_session_fields()),
{
    proof {
        reveal_with_fuel(read_fields, 4);
    }
    let channel = match text_field(raw, "Channel") {
        Some(v) => v,
        None => return malformed(raw, event_name, "Channel"),
    };
    let unique_id = match text_field(raw, "Uniqueid") {
        Some(v) => v,
        None => return malformed(raw, event_name, "Uniqueid"),
    };
    let session_number = match text_field(raw, "SessionNumber") {
        Some(v) => v,
        None => return malformed(raw, event_name, "SessionNumber"),
    };
    AmiEvent::FAXSession { channel, unique_id, session_number }
}

/// Reads a `FAXSessionsEntry` event.
fn parse_fax_sessions_entry(raw: &RawAmiMessage, event_name: &str) -> (r: AmiEvent)
    ensures
        r@ == typed_view(raw@, event_name@, EventKind::FAXSessionsEntry, fax_sessions_entry_fields()),
{
    proof {
        reveal_with_fuel(read_fields, 6);
    }
    let channel = match text_field(raw, "Channel") {
        Some(v) => v,
        None => return malformed(raw, event_name, "Channel"),
    };
    let session_number = match text_field(raw, "SessionNumber") {
        Some(v) => v,
        None => return malformed(raw, event_name, "SessionNumber"),
    };
    let technology = match text_field(raw, "Technology") {
        Some(v) => v,
        None => return malformed(raw, event_name, "Technology"),
    };
    let state = match text_field(raw, "State") {
        Some(v) => v,
        None => return malformed(raw, event_name, "State"),
    };
    let files = match text_field(raw, "Files") {
        Some(v) => v,
        None => return malformed(raw, event_name, "Files"),
    };
    AmiEvent::FAXSessionsEntry { channel, session_number, technology, state, files }
}

/// Reads a `FAXSessionsComplete` event.
fn parse_fax_sessions_complete(raw: &RawAmiMessage, event_name: &str) -> (r: AmiEvent)
    ensures
        r@ == typed_view(raw@, event_name@, EventKind::FAXSessionsComplete, fax_sessions_complete_fields()),
{
    proof {
        reveal_with_fuel(read_fields, 2);
    }
    let total = match number_field(raw, "Total") {
        Some(v) => v,
        None => return malformed(raw, event_name, "Total"),
    };
    AmiEvent::FAXSessionsComplete { total }
}

/// Reads a `FAXStats` event.
fn parse_fax_stats(raw: &RawAmiMessage, event_name: &str) -> (r: AmiEvent)
    ensures
        r@ == typed_view(raw@, event_name@, EventKind::FAXStats, fax_stats_fields()),
{
    proof {
        reveal_with_fuel(read_fields, 7);
    }
    let current_sessions = match number_field(raw, "CurrentSessions") {
        Some(v) => v,
        None => return malformed(raw, event_name, "CurrentSessions"),
    };
    let reserved_sessions = match number_field(raw, "ReservedSessions") {
        Some(v) => v,
        None => return malformed(raw, event_name, "ReservedSessions"),
    };
    let transmit_attempts = match number_field(raw, "TransmitAttempts") {
        Some(v) => v,
        None => return malformed(raw, event_name, "TransmitAttempts"),
    };
    let receive_attempts = match number_field(raw, "ReceiveAttempts") {
        Some(v) => v,
        None => return malformed(raw, event_name, "ReceiveAttempts"),
    };
    let completed_faxes = match number_field(raw, "CompletedFAXes") {
        Some(v) => v,
        None => return malformed(raw, event_name, "CompletedFAXes"),
    };
    let failed_faxes = match number_field(raw, "FailedFAXes") {
        Some(v) => v,
        None => return malformed(raw, event_name, "FailedFAXes"),
    };
    AmiEvent::FAXStats { current_sessions, reserved_sessions, transmit_attempts, receive_attempts, completed_faxes, failed_faxes }
}

/// Reads a `DNDState` event.
fn parse_dnd_state(raw: &RawAmiMessage, event_name: &str) -> (r: AmiEvent)
    ensures
        r@ == typed_view(raw@, event_name@, EventKind::DNDState, dnd_state_fields()),
{
    proof {
        reveal_with_fuel(read_fields, 3);
    }
    let channel = match text_field(raw, "Channel") {
        Some(v) => v,
        None => return malformed(raw, event_name, "Channel"),
    };
    let status = match text_field(raw, "Status") {
        Some(v) => v,
        None => return malformed(raw, event_name, "Status"),
    };
    AmiEvent::DNDState { channel, status }
}

/// Reads a `DeadlockStart` event.
fn parse_deadlock_start(raw: &RawAmiMessage, event_name: &str) -> (r: AmiEvent)
    ensures
        r@ == typed_view(raw@, event_name@, EventKind::DeadlockStart, deadlock_start_fields()),
{
    AmiEvent::DeadlockStart
}

/// Reads a `MCID` event.
fn parse_mcid(raw: &RawAmiMessage, event_name: &str) -> (r: AmiEvent)
    ensures
        r@ == typed_view(raw@, event_name@, EventKind::MCID, mcid_fields()),
{
    proof {
        reveal_with_fuel(read_fields, 5);
    }
    let channel = match text_field(raw, "Channel") {
        Some(v) => v,
        None => return malformed(raw, event_name, "Channel"),
    };
    let unique_id = match text_field(raw, "Uniqueid") {
        Some(v) => v,
        None => return malformed(raw, event_name, "Uniqueid"),
    };
    let caller_id_num = match text_field(raw, "CallerIDNum") {
        Some(v) => v,
        None => return malformed(raw, event_name, "CallerIDNum"),
    };
    let caller_id_name = match text_field(raw, "CallerIDName") {
        Some(v) => v,
        None => return malformed(raw, event_name, "CallerIDName"),
    };
    AmiEvent::MCID { channel, unique_id, caller_id_num, caller_id_name }
}

/// Reads an event named in part 1 of the table; `None` for other names.
pub fn parse_group_01(raw: &RawAmiMessage, event_name: &str) -> (r: Option<AmiEvent>)
    ensures
        match schema_01(event_name@) {
            Some((kind, fs)) => r matches Some(e) && e@ == typed_view(raw@, event_name@, kind, fs),
            None => r is None,
        },
{
    if str_eq(event_name, "Newchannel") {
        return Some(parse_new_channel(raw, event_name));
    }
    if str_eq(event_name, "Hangup") {
        return Some(parse_hangup(raw, event_name));
    }
    if str_eq(event_name, "Newstate") {
        return Some(parse_newstate(raw, event_name));
    }
    if str_eq(event_name, "DialBegin") {
        return Some(parse_dial_begin(raw, event_name));
    }
    if str_eq(event_name, "DialEnd") {
        return Some(parse_dial_end(raw, event_name));
    }
    if str_eq(event_name, "DTMFBegin") {
        return Some(parse_dtmf_begin(raw, event_name));
    }
    if str_eq(event_name, "DTMFEnd") {
        return Some(parse_dtmf_end(raw, event_name));
    }
    if str_eq(event_name, "FullyBooted") {
        return Some(parse_fully_booted(raw, event_name));
    }
    if str_eq(event_name, "PeerStatus") {
        return Some(parse_peer_status(raw, event_name));
    }
    if str_eq(event_name, "BridgeCreate") {
        return Some(parse_bridge_create(raw, event_name));
    }
    if str_eq(event_name, "BridgeDestroy") {
        return Some(parse_bridge_destroy(raw, event_name));
    }
    if str_eq(event_name, "BridgeEnter") {
        return Some(parse_bridge_enter(raw, event_name));
    }
    if str_eq(event_name, "BridgeLeave") {
        return Some(parse_bridge_leave(raw, event_name));
    }
    if str_eq(event_name, "VarSet") {
        return Some(parse_var_set(raw, event_name));
    }
    if str_eq(event_name, "Hold") {
        return Some(parse_hold(raw, event_name));
    }
    None
}

/// Reads an event named in part 2 of the table; `None` for other names.
pub fn parse_group_02(raw: &RawAmiMessage, event_name: &str) -> (r: Option<AmiEvent>)
    ensures
        match schema_02(event_name@) {
            Some((kind, fs)) => r matches Some(e) && e@ == typed_view(raw@, event_name@, kind, fs),
            None => r is None,
        },
{
    if str_eq(event_name, "Unhold") {
        return Some(parse_unhold(raw, event_name));
    }
    if str_eq(event_name, "HangupRequest") {
        return Some(parse_hangup_request(raw, event_name));
    }
    if str_eq(event_name, "SoftHangupRequest") {
        return Some(parse_soft_hangup_request(raw, event_name));
    }
    if str_eq(event_name, "NewExten") {
        return Some(parse_new_exten(raw, event_name));
    }
    if str_eq(event_name, "NewCallerid") {
        return Some(parse_new_callerid(raw, event_name));
    }
    if str_eq(event_name, "NewConnectedLine") {
        return Some(parse_new_connected_line(raw, event_name));
    }
    if str_eq(event_name, "NewAccountCode") {
        return Some(parse_new_account_code(raw, event_name));
    }
    if str_eq(event_name, "Rename") {
        return Some(parse_rename(raw, event_name));
    }
    if str_eq(event_name, "OriginateResponse") {
        return Some(parse_originate_response(raw, event_name));
    }
    if str_eq(event_name, "DialState") {
        return Some(parse_dial_state(raw, event_name));
    }
    if str_eq(event_name, "Flash") {
        return Some(parse_flash(raw, event_name));
    }
    if str_eq(event_name, "Wink") {
        return Some(parse_wink(raw, event_name));
    }
    if str_eq(event_name, "UserEvent") {
        return Some(parse_user_event(raw, event_name));
    }
    if str_eq(event_name, "AttendedTransfer") {
        return Some(parse_attended_transfer(raw, event_name));
    }
    if str_eq(event_name, "BlindTransfer") {
        return Some(parse_blind_transfer(raw, event_name));
    }
    None
}

/// Reads an event named in part 3 of the table; `None` for other names.
pub fn parse_group_03(raw: &RawAmiMessage, event_name: &str) -> (r: Option<AmiEvent>)
    ensures
        match schema_03(event_name@) {
            Some((kind, fs)) => r matches Some(e) && e@ == typed_view(raw@, event_name@, kind, fs),
            None => r is None,
        },
{
    if str_eq(event_name, "BridgeMerge") {
        return Some(parse_bridge_merge(raw, event_name));
    }
    if str_eq(event_name, "BridgeInfoChannel") {
        return Some(parse_bridge_info_channel(raw, event_name));
    }
    if str_eq(event_name, "BridgeInfoComplete") {
        return Some(parse_bridge_info_complete(raw, event_name));
    }
    if str_eq(event_name, "BridgeVideoSourceUpdate") {
        return Some(parse_bridge_video_source_update(raw, event_name));
    }
    if str_eq(event_name, "LocalBridge") {
        return Some(parse_local_bridge(raw, event_name));
    }
    if str_eq(event_name, "LocalOptimizationBegin") {
        return Some(parse_local_optimization_begin(raw, event_name));
    }
    if str_eq(event_name, "LocalOptimizationEnd") {
        return Some(parse_local_optimization_end(raw, event_name));
    }
    if str_eq(event_name, "Cdr") {
        return Some(parse_cdr(raw, event_name));
    }
    if str_eq(event_name, "CEL") {
        return Some(parse_cel(raw, event_name));
    }
    if str_eq(event_name, "QueueCallerAbandon") {
        return Some(parse_queue_caller_abandon(raw, event_name));
    }
    if str_eq(event_name, "QueueCallerJoin") {
        return Some(parse_queue_caller_join(raw, event_name));
    }
    if str_eq(event_name, "QueueCallerLeave") {
        return Some(parse_queue_caller_leave(raw, event_name));
    }
    if str_eq(event_name, "QueueMemberAdded") {
        return Some(parse_queue_member_added(raw, event_name));
    }
    if str_eq(event_name, "QueueMemberRemoved") {
        return Some(parse_queue_member_removed(raw, event_name));
    }
    if str_eq(event_name, "QueueMemberPause") {
        return Some(parse_queue_member_pause(raw, event_name));
    }
    None
}

/// Reads an event named in part 4 of the table; `None` for other names.
pub fn parse_group_04(raw: &RawAmiMessage, event_name: &str) -> (r: Option<AmiEvent>)
    ensures
        match schema_04(event_name@) {
            Some((kind, fs)) => r matches Some(e) && e@ == typed_view(raw@, event_name@, kind, fs),
            None => r is None,
        },
{
    if str_eq(event_name, "QueueMemberStatus") {
        return Some(parse_queue_member_status(raw, event_name));
    }
    if str_eq(event_name, "QueueMemberPenalty") {
        return Some(parse_queue_member_penalty(raw, event_name));
    }
    if str_eq(event_name, "QueueMemberRinginuse") {
        return Some(parse_queue_member_ringinuse(raw, event_name));
    }
    if str_eq(event_name, "QueueParams") {
        return Some(parse_queue_params(raw, event_name));
    }
    if str_eq(event_name, "QueueEntry") {
        return Some(parse_queue_entry(raw, event_name));
    }
    if str_eq(event_name, "AgentCalled") {
        return Some(parse_agent_called(raw, event_name));
    }
    if str_eq(event_name, "AgentConnect") {
        return Some(parse_agent_connect(raw, event_name));
    }
    if str_eq(event_name, "AgentComplete") {
        return Some(parse_agent_complete(raw, event_name));
    }
    if str_eq(event_name, "AgentDump") {
        return Some(parse_agent_dump(raw, event_name));
    }
    if str_eq(event_name, "AgentLogin") {
        return Some(parse_agent_login(raw, event_name));
    }
    if str_eq(event_name, "AgentLogoff") {
        return Some(parse_agent_logoff(raw, event_name));
    }
    if str_eq(event_name, "AgentRingNoAnswer") {
        return Some(parse_agent_ring_no_answer(raw, event_name));
    }
    if str_eq(event_name, "Agents") {
        return Some(parse_agents(raw, event_name));
    }
    if str_eq(event_name, "AgentsComplete") {
        return Some(parse_agents_complete(raw, event_name));
    }
    if str_eq(event_name, "ConfbridgeStart") {
        return Some(parse_confbridge_start(raw, event_name));
    }
    None
}

/// Reads an event named in part 5 of the table; `None` for other names.
pub fn parse_group_05(raw: &RawAmiMessage, event_name: &str) -> (r: Option<AmiEvent>)
    ensures
        match schema_05(event_name@) {
            Some((kind, fs)) => r matches Some(e) && e@ == typed_view(raw@, event_name@, kind, fs),
            None => r is None,
        },
{
    if str_eq(event_name, "ConfbridgeEnd") {
        return Some(parse_confbridge_end(raw, event_name));
    }
    if str_eq(event_name, "ConfbridgeJoin") {
        return Some(parse_confbridge_join(raw, event_name));
    }
    if str_eq(event_name, "ConfbridgeLeave") {
        return Some(parse_confbridge_leave(raw, event_name));
    }
    if str_eq(event_name, "ConfbridgeList") {
        return Some(parse_confbridge_list(raw, event_name));
    }
    if str_eq(event_name, "ConfbridgeMute") {
        return Some(parse_confbridge_mute(raw, event_name));
    }
    if str_eq(event_name, "ConfbridgeUnmute") {
        return Some(parse_confbridge_unmute(raw, event_name));
    }
    if str_eq(event_name, "ConfbridgeTalking") {
        return Some(parse_confbridge_talking(raw, event_name));
    }
    if str_eq(event_name, "ConfbridgeRecord") {
        return Some(parse_confbridge_record(raw, event_name));
    }
    if str_eq(event_name, "ConfbridgeStopRecord") {
        return Some(parse_confbridge_stop_record(raw, event_name));
    }
    if str_eq(event_name, "ConfbridgeListRooms") {
        return Some(parse_confbridge_list_rooms(raw, event_name));
    }
    if str_eq(event_name, "MixMonitorStart") {
        return Some(parse_mix_monitor_start(raw, event_name));
    }
    if str_eq(event_name, "MixMonitorStop") {
        return Some(parse_mix_monitor_stop(raw, event_name));
    }
    if str_eq(event_name, "MixMonitorMute") {
        return Some(parse_mix_monitor_mute(raw, event_name));
    }
    if str_eq(event_name, "MusicOnHoldStart") {
        return Some(parse_music_on_hold_start(raw, event_name));
    }
    if str_eq(event_name, "MusicOnHoldStop") {
        return Some(parse_music_on_hold_stop(raw, event_name));
    }
    None
}

/// Reads an event named in part 6 of the table; `None` for other names.
pub fn parse_group_06(raw: &RawAmiMessage, event_name: &str) -> (r: Option<AmiEvent>)
    ensures
        match schema_06(event_name@) {
            Some((kind, fs)) => r matches Some(e) && e@ == typed_view(raw@, event_name@, kind, fs),
            None => r is None,
        },
{
    if str_eq(event_name, "ParkedCall") {
        return Some(parse_parked_call(raw, event_name));
    }
    if str_eq(event_name, "ParkedCallGiveUp") {
        return Some(parse_parked_call_give_up(raw, event_name));
    }
    if str_eq(event_name, "ParkedCallTimeOut") {
        return Some(parse_parked_call_time_out(raw, event_name));
    }
    if str_eq(event_name, "ParkedCallSwap") {
        return Some(parse_parked_call_swap(raw, event_name));
    }
    if str_eq(event_name, "UnParkedCall") {
        return Some(parse_un_parked_call(raw, event_name));
    }
    if str_eq(event_name, "Pickup") {
        return Some(parse_pickup(raw, event_name));
    }
    if str_eq(event_name, "ChanSpyStart") {
        return Some(parse_chan_spy_start(raw, event_name));
    }
    if str_eq(event_name, "ChanSpyStop") {
        return Some(parse_chan_spy_stop(raw, event_name));
    }
    if str_eq(event_name, "ChannelTalkingStart") {
        return Some(parse_channel_talking_start(raw, event_name));
    }
    if str_eq(event_name, "ChannelTalkingStop") {
        return Some(parse_channel_talking_stop(raw, event_name));
    }
    if str_eq(event_name, "DeviceStateChange") {
        return Some(parse_device_state_change(raw, event_name));
    }
    if str_eq(event_name, "ExtensionStatus") {
        return Some(parse_extension_status(raw, event_name));
    }
    if str_eq(event_name, "PresenceStateChange") {
        return Some(parse_presence_state_change(raw, event_name));
    }
    if str_eq(event_name, "PresenceStatus") {
        return Some(parse_presence_status(raw, event_name));
    }
    if str_eq(event_name, "ContactStatus") {
        return Some(parse_contact_status(raw, event_name));
    }
    None
}

/// Reads an event named in part 7 of the table; `None` for other names.
pub fn parse_group_07(raw: &RawAmiMessage, event_name: &str) -> (r: Option<AmiEvent>)
    ensures
        match schema_07(event_name@) {
            Some((kind, fs)) => r matches Some(e) && e@ == typed_view(raw@, event_name@, kind, fs),
            None => r is None,
        },
{
    if str_eq(event_name, "Registry") {
        return Some(parse_registry(raw, event_name));
    }
    if str_eq(event_name, "MessageWaiting") {
        return Some(parse_message_waiting(raw, event_name));
    }
    if str_eq(event_name, "VoicemailPasswordChange") {
        return Some(parse_voicemail_password_change(raw, event_name));
    }
    if str_eq(event_name, "RTCPReceived") {
        return Some(parse_rtcp_received(raw, event_name));
    }
    if str_eq(event_name, "RTCPSent") {
        return Some(parse_rtcp_sent(raw, event_name));
    }
    if str_eq(event_name, "FailedACL") {
        return Some(parse_failed_acl(raw, event_name));
    }
    if str_eq(event_name, "InvalidAccountID") {
        return Some(parse_invalid_account_id(raw, event_name));
    }
    if str_eq(event_name, "InvalidPassword") {
        return Some(parse_invalid_password(raw, event_name));
    }
    if str_eq(event_name, "ChallengeResponseFailed") {
        return Some(parse_challenge_response_failed(raw, event_name));
    }
    if str_eq(event_name, "ChallengeSent") {
        return Some(parse_challenge_sent(raw, event_name));
    }
    if str_eq(event_name, "SuccessfulAuth") {
        return Some(parse_successful_auth(raw, event_name));
    }
    if str_eq(event_name, "SessionLimit") {
        return Some(parse_session_limit(raw, event_name));
    }
    if str_eq(event_name, "UnexpectedAddress") {
        return Some(parse_unexpected_address(raw, event_name));
    }
    if str_eq(event_name, "RequestBadFormat") {
        return Some(parse_request_bad_format(raw, event_name));
    }
    if str_eq(event_name, "RequestNotAllowed") {
        return Some(parse_request_not_allowed(raw, event_name));
    }
    None
}

/// Reads an event named in part 8 of the table; `None` for other names.
pub fn parse_group_08(raw: &RawAmiMessage, event_name: &str) -> (r: Option<AmiEvent>)
    ensures
        match schema_08(event_name@) {
            Some((kind, fs)) => r matches Some(e) && e@ == typed_view(raw@, event_name@, kind, fs),
            None => r is None,
        },
{
    if str_eq(event_name, "RequestNotSupported") {
        return Some(parse_request_not_supported(raw, event_name));
    }
    if str_eq(event_name, "InvalidTransport") {
        return Some(parse_invalid_transport(raw, event_name));
    }
    if str_eq(event_name, "AuthMethodNotAllowed") {
        return Some(parse_auth_method_not_allowed(raw, event_name));
    }
    if str_eq(event_name, "Shutdown") {
        return Some(parse_shutdown(raw, event_name));
    }
    if str_eq(event_name, "Reload") {
        return Some(parse_reload(raw, event_name));
    }
    if str_eq(event_name, "Load") {
        return Some(parse_load(raw, event_name));
    }
    if str_eq(event_name, "Unload") {
        return Some(parse_unload(raw, event_name));
    }
    if str_eq(event_name, "LogChannel") {
        return Some(parse_log_channel(raw, event_name));
    }
    if str_eq(event_name, "LoadAverageLimit") {
        return Some(parse_load_average_limit(raw, event_name));
    }
    if str_eq(event_name, "MemoryLimit") {
        return Some(parse_memory_limit(raw, event_name));
    }
    if str_eq(event_name, "AsyncAGIStart") {
        return Some(parse_async_agi_start(raw, event_name));
    }
    if str_eq(event_name, "AsyncAGIExec") {
        return Some(parse_async_agi_exec(raw, event_name));
    }
    if str_eq(event_name, "AsyncAGIEnd") {
        return Some(parse_async_agi_end(raw, event_name));
    }
    if str_eq(event_name, "AGIExecStart") {
        return Some(parse_agi_exec_start(raw, event_name));
    }
    if str_eq(event_name, "AGIExecEnd") {
        return Some(parse_agi_exec_end(raw, event_name));
    }
    None
}

/// Reads an event named in part 9 of the table; `None` for other names.
pub fn parse_group_09(raw: &RawAmiMessage, event_name: &str) -> (r: Option<AmiEvent>)
    ensures
        match schema_09(event_name@) {
            Some((kind, fs)) => r matches Some(e) && e@ == typed_view(raw@, event_name@, kind, fs),
            None => r is None,
        },
{
    if str_eq(event_name, "HangupHandlerPush") {
        return Some(parse_hangup_handler_push(raw, event_name));
    }
    if str_eq(event_name, "HangupHandlerPop") {
        return Some(parse_hangup_handler_pop(raw, event_name));
    }
    if str_eq(event_name, "HangupHandlerRun") {
        return Some(parse_hangup_handler_run(raw, event_name));
    }
    if str_eq(event_name, "Status") {
        return Some(parse_status(raw, event_name));
    }
    if str_eq(event_name, "StatusComplete") {
        return Some(parse_status_complete(raw, event_name));
    }
    if str_eq(event_name, "CoreShowChannel") {
        return Some(parse_core_show_channel(raw, event_name));
    }
    if str_eq(event_name, "CoreShowChannelsComplete") {
        return Some(parse_core_show_channels_complete(raw, event_name));
    }
    if str_eq(event_name, "CoreShowChannelMapComplete") {
        return Some(parse_core_show_channel_map_complete(raw, event_name));
    }
    if str_eq(event_name, "DAHDIChannel") {
        return Some(parse_dahdi_channel(raw, event_name));
    }
    if str_eq(event_name, "Alarm") {
        return Some(parse_alarm(raw, event_name));
    }
    if str_eq(event_name, "AlarmClear") {
        return Some(parse_alarm_clear(raw, event_name));
    }
    if str_eq(event_name, "SpanAlarm") {
        return Some(parse_span_alarm(raw, event_name));
    }
    if str_eq(event_name, "SpanAlarmClear") {
        return Some(parse_span_alarm_clear(raw, event_name));
    }
    if str_eq(event_name, "AOC-D") {
        return Some(parse_aoc_d(raw, event_name));
    }
    if str_eq(event_name, "AOC-E") {
        return Some(parse_aoc_e(raw, event_name));
    }
    None
}

/// Reads an event named in part 10 of the table; `None` for other names.
pub fn parse_group_10(raw: &RawAmiMessage, event_name: &str) -> (r: Option<AmiEvent>)
    ensures
        match schema_10(event_name@) {
            Some((kind, fs)) => r matches Some(e) && e@ == typed_view(raw@, event_name@, kind, fs),
            None => r is None,
        },
{
    if str_eq(event_name, "AOC-S") {
        return Some(parse_aoc_s(raw, event_name));
    }
    if str_eq(event_name, "FAXStatus") {
        return Some(parse_fax_status(raw, event_name));
    }
    if str_eq(event_name, "ReceiveFAX") {
        return Some(parse_receive_fax(raw, event_name));
    }
    if str_eq(event_name, "SendFAX") {
        return Some(parse_send_fax(raw, event_name));
    }
    if str_eq(event_name, "MeetmeJoin") {
        return Some(parse_meetme_join(raw, event_name));
    }
    if str_eq(event_name, "MeetmeLeave") {
        return Some(parse_meetme_leave(raw, event_name));
    }
    if str_eq(event_name, "MeetmeEnd") {
        return Some(parse_meetme_end(raw, event_name));
    }
    if str_eq(event_name, "MeetmeMute") {
        return Some(parse_meetme_mute(raw, event_name));
    }
    if str_eq(event_name, "MeetmeTalking") {
        return Some(parse_meetme_talking(raw, event_name));
    }
    if str_eq(event_name, "MeetmeTalkRequest") {
        return Some(parse_meetme_talk_request(raw, event_name));
    }
    if str_eq(event_name, "MeetmeList") {
        return Some(parse_meetme_list(raw, event_name));
    }
    if str_eq(event_name, "MeetmeListRooms") {
        return Some(parse_meetme_list_rooms(raw, event_name));
    }
    if str_eq(event_name, "DeviceStateListComplete") {
        return Some(parse_device_state_list_complete(raw, event_name));
    }
    if str_eq(event_name, "ExtensionStateListComplete") {
        return Some(parse_extension_state_list_complete(raw, event_name));
    }
    if str_eq(event_name, "PresenceStateListComplete") {
        return Some(parse_presence_state_list_complete(raw, event_name));
    }
    None
}

/// Reads an event named in part 11 of the table; `None` for other names.
pub fn parse_group_11(raw: &RawAmiMessage, event_name: &str) -> (r: Option<AmiEvent>)
    ensures
        match schema_11(event_name@) {
            Some((kind, fs)) => r matches Some(e) && e@ == typed_view(raw@, event_name@, kind, fs),
            None => r is None,
        },
{
    if str_eq(event_name, "AorDetail") {
        return Some(parse_aor_detail(raw, event_name));
    }
    if str_eq(event_name, "AorList") {
        return Some(parse_aor_list(raw, event_name));
    }
    if str_eq(event_name, "AorListComplete") {
        return Some(parse_aor_list_complete(raw, event_name));
    }
    if str_eq(event_name, "AuthDetail") {
        return Some(parse_auth_detail(raw, event_name));
    }
    if str_eq(event_name, "AuthList") {
        return Some(parse_auth_list(raw, event_name));
    }
    if str_eq(event_name, "AuthListComplete") {
        return Some(parse_auth_list_complete(raw, event_name));
    }
    if str_eq(event_name, "ContactList") {
        return Some(parse_contact_list(raw, event_name));
    }
    if str_eq(event_name, "ContactListComplete") {
        return Some(parse_contact_list_complete(raw, event_name));
    }
    if str_eq(event_name, "ContactStatusDetail") {
        return Some(parse_contact_status_detail(raw, event_name));
    }
    if str_eq(event_name, "EndpointDetail") {
        return Some(parse_endpoint_detail(raw, event_name));
    }
    if str_eq(event_name, "EndpointDetailComplete") {
        return Some(parse_endpoint_detail_complete(raw, event_name));
    }
    if str_eq(event_name, "EndpointList") {
        return Some(parse_endpoint_list(raw, event_name));
    }
    if str_eq(event_name, "EndpointListComplete") {
        return Some(parse_endpoint_list_complete(raw, event_name));
    }
    if str_eq(event_name, "IdentifyDetail") {
        return Some(parse_identify_detail(raw, event_name));
    }
    if str_eq(event_name, "TransportDetail") {
        return Some(parse_transport_detail(raw, event_name));
    }
    None
}

/// Reads an event named in part 12 of the table; `None` for other names.
pub fn parse_group_12(raw: &RawAmiMessage, event_name: &str) -> (r: Option<AmiEvent>)
    ensures
        match schema_12(event_name@) {
            Some((kind, fs)) => r matches Some(e) && e@ == typed_view(raw@, event_name@, kind, fs),
            None => r is None,
        },
{
    if str_eq(event_name, "ResourceListDetail") {
        return Some(parse_resource_list_detail(raw, event_name));
    }
    if str_eq(event_name, "InboundRegistrationDetail") {
        return Some(parse_inbound_registration_detail(raw, event_name));
    }
    if str_eq(event_name, "OutboundRegistrationDetail") {
        return Some(parse_outbound_registration_detail(raw, event_name));
    }
    if str_eq(event_name, "InboundSubscriptionDetail") {
        return Some(parse_inbound_subscription_detail(raw, event_name));
    }
    if str_eq(event_name, "OutboundSubscriptionDetail") {
        return Some(parse_outbound_subscription_detail(raw, event_name));
    }
    if str_eq(event_name, "MWIGet") {
        return Some(parse_mwi_get(raw, event_name));
    }
    if str_eq(event_name, "MWIGetComplete") {
        return Some(parse_mwi_get_complete(raw, event_name));
    }
    if str_eq(event_name, "MiniVoiceMail") {
        return Some(parse_mini_voice_mail(raw, event_name));
    }
    if str_eq(event_name, "FAXSession") {
        return Some(parse_fax_session(raw, event_name));
    }
    if str_eq(event_name, "FAXSessionsEntry") {
        return Some(parse_fax_sessions_entry(raw, event_name));
    }
    if str_eq(event_name, "FAXSessionsComplete") {
        return Some(parse_fax_sessions_complete(raw, event_name));
    }
    if str_eq(event_name, "FAXStats") {
        return Some(parse_fax_stats(raw, event_name));
    }
    if str_eq(event_name, "DNDState") {
        return Some(parse_dnd_state(raw, event_name));
    }
    if str_eq(event_name, "DeadlockStart") {
        return Some(parse_deadlock_start(raw, event_name));
    }
    if str_eq(event_name, "MCID") {
        return Some(parse_mcid(raw, event_name));
    }
    None
}

} // verus!
