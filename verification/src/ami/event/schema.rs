//! The table of known events: for each `Event` name, its variant and the
//! fields read for it, in order.
use vstd::prelude::*;
use super::{EventKind, Fields, FieldRule, then, kind_name};

verus! {

/// Fields of `Newchannel`.
pub open spec fn new_channel_fields() -> Fields {
    then(FieldRule::Text("Channel"@), then(FieldRule::Text("ChannelState"@), then(FieldRule::Text("ChannelStateDesc"@), then(FieldRule::Text("CallerIDNum"@), then(FieldRule::Text("CallerIDName"@), then(FieldRule::Text("Uniqueid"@), then(FieldRule::Text("Linkedid"@), Fields::End)))))))
}

/// Fields of `Hangup`.
pub open spec fn hangup_fields() -> Fields {
    then(FieldRule::Text("Channel"@), then(FieldRule::Text("Uniqueid"@), then(FieldRule::Number("Cause"@), then(FieldRule::Text("Cause-txt"@), Fields::End))))
}

/// Fields of `Newstate`.
pub open spec fn newstate_fields() -> Fields {
    then(FieldRule::Text("Channel"@), then(FieldRule::Text("ChannelState"@), then(FieldRule::Text("ChannelStateDesc"@), then(FieldRule::Text("Uniqueid"@), Fields::End))))
}

/// Fields of `DialBegin`.
pub open spec fn dial_begin_fields() -> Fields {
    then(FieldRule::Text("Channel"@), then(FieldRule::Text("DestChannel"@), then(FieldRule::Text("DialString"@), then(FieldRule::Text("Uniqueid"@), then(FieldRule::Text("DestUniqueid"@), Fields::End)))))
}

/// Fields of `DialEnd`.
pub open spec fn dial_end_fields() -> Fields {
    then(FieldRule::Text("Channel"@), then(FieldRule::Text("DestChannel"@), then(FieldRule::Text("DialStatus"@), then(FieldRule::Text("Uniqueid"@), then(FieldRule::Text("DestUniqueid"@), Fields::End)))))
}

/// Fields of `DTMFBegin`.
pub open spec fn dtmf_begin_fields() -> Fields {
    then(FieldRule::Text("Channel"@), then(FieldRule::Text("Digit"@), then(FieldRule::Text("Direction"@), then(FieldRule::Text("Uniqueid"@), Fields::End))))
}

/// Fields of `DTMFEnd`.
pub open spec fn dtmf_end_fields() -> Fields {
    then(FieldRule::Text("Channel"@), then(FieldRule::Text("Digit"@), then(FieldRule::Number("DurationMs"@), then(FieldRule::Text("Direction"@), then(FieldRule::Text("Uniqueid"@), Fields::End)))))
}

/// Fields of `FullyBooted`.
pub open spec fn fully_booted_fields() -> Fields {
    then(FieldRule::Text("Status"@), Fields::End)
}

/// Fields of `PeerStatus`.
pub open spec fn peer_status_fields() -> Fields {
    then(FieldRule::Text("ChannelType"@), then(FieldRule::Text("Peer"@), then(FieldRule::Text("PeerStatus"@), Fields::End)))
}

/// Fields of `BridgeCreate`.
pub open spec fn bridge_create_fields() -> Fields {
    then(FieldRule::Text("BridgeUniqueid"@), then(FieldRule::Text("BridgeType"@), Fields::End))
}

/// Fields of `BridgeDestroy`.
pub open spec fn bridge_destroy_fields() -> Fields {
    then(FieldRule::Text("BridgeUniqueid"@), Fields::End)
}

/// Fields of `BridgeEnter`.
pub open spec fn bridge_enter_fields() -> Fields {
    then(FieldRule::Text("BridgeUniqueid"@), then(FieldRule::Text("Channel"@), then(FieldRule::Text("Uniqueid"@), Fields::End)))
}

/// Fields of `BridgeLeave`.
pub open spec fn bridge_leave_fields() -> Fields {
    then(FieldRule::Text("BridgeUniqueid"@), then(FieldRule::Text("Channel"@), then(FieldRule::Text("Uniqueid"@), Fields::End)))
}

/// Fields of `VarSet`.
pub open spec fn var_set_fields() -> Fields {
    then(FieldRule::Optional("Channel"@), then(FieldRule::Text("Variable"@), then(FieldRule::Text("Value"@), then(FieldRule::Optional("Uniqueid"@), Fields::End))))
}

/// Fields of `Hold`.
pub open spec fn hold_fields() -> Fields {
    then(FieldRule::Text("Channel"@), then(FieldRule::Text("Uniqueid"@), then(FieldRule::Optional("MusicClass"@), Fields::End)))
}

/// Fields of `Unhold`.
pub open spec fn unhold_fields() -> Fields {
    then(FieldRule::Text("Channel"@), then(FieldRule::Text("Uniqueid"@), Fields::End))
}

/// Fields of `HangupRequest`.
pub open spec fn hangup_request_fields() -> Fields {
    then(FieldRule::Text("Channel"@), then(FieldRule::Text("Uniqueid"@), then(FieldRule::Number("Cause"@), Fields::End)))
}

/// Fields of `SoftHangupRequest`.
pub open spec fn soft_hangup_request_fields() -> Fields {
    then(FieldRule::Text("Channel"@), then(FieldRule::Text("Uniqueid"@), then(FieldRule::Number("Cause"@), Fields::End)))
}

/// Fields of `NewExten`.
pub open spec fn new_exten_fields() -> Fields {
    then(FieldRule::Text("Channel"@), then(FieldRule::Text("Context"@), then(FieldRule::Text("Extension"@), then(FieldRule::Number("Priority"@), then(FieldRule::Text("Application"@), then(FieldRule::Text("AppData"@), then(FieldRule::Text("Uniqueid"@), Fields::End)))))))
}

/// Fields of `NewCallerid`.
pub open spec fn new_callerid_fields() -> Fields {
    then(FieldRule::Text("Channel"@), then(FieldRule::Text("CallerIDNum"@), then(FieldRule::Text("CallerIDName"@), then(FieldRule::Text("Uniqueid"@), then(FieldRule::Text("CID-CallingPres"@), Fields::End)))))
}

/// Fields of `NewConnectedLine`.
pub open spec fn new_connected_line_fields() -> Fields {
    then(FieldRule::Text("Channel"@), then(FieldRule::Text("Uniqueid"@), then(FieldRule::Text("ConnectedLineNum"@), then(FieldRule::Text("ConnectedLineName"@), Fields::End))))
}

/// Fields of `NewAccountCode`.
pub open spec fn new_account_code_fields() -> Fields {
    then(FieldRule::Text("Channel"@), then(FieldRule::Text("Uniqueid"@), then(FieldRule::Text("AccountCode"@), then(FieldRule::Text("OldAccountCode"@), Fields::End))))
}

/// Fields of `Rename`.
pub open spec fn rename_fields() -> Fields {
    then(FieldRule::Text("Channel"@), then(FieldRule::Text("Newname"@), then(FieldRule::Text("Uniqueid"@), Fields::End)))
}

/// Fields of `OriginateResponse`.
pub open spec fn originate_response_fields() -> Fields {
    then(FieldRule::Optional("ActionID"@), then(FieldRule::Text("Channel"@), then(FieldRule::Text("Uniqueid"@), then(FieldRule::Text("Response"@), then(FieldRule::Text("Reason"@), Fields::End)))))
}

/// Fields of `DialState`.
pub open spec fn dial_state_fields() -> Fields {
    then(FieldRule::Text("Channel"@), then(FieldRule::Text("DestChannel"@), then(FieldRule::Text("DialStatus"@), then(FieldRule::Text("Uniqueid"@), then(FieldRule::Text("DestUniqueid"@), Fields::End)))))
}

/// Fields of `Flash`.
pub open spec fn flash_fields() -> Fields {
    then(FieldRule::Text("Channel"@), then(FieldRule::Text("Uniqueid"@), Fields::End))
}

/// Fields of `Wink`.
pub open spec fn wink_fields() -> Fields {
    then(FieldRule::Text("Channel"@), then(FieldRule::Text("Uniqueid"@), Fields::End))
}

/// Fields of `UserEvent`.
pub open spec fn user_event_fields() -> Fields {
    then(FieldRule::Optional("Channel"@), then(FieldRule::Optional("Uniqueid"@), then(FieldRule::Text("UserEvent"@), then(FieldRule::AllHeaders, Fields::End))))
}

/// Fields of `AttendedTransfer`.
pub open spec fn attended_transfer_fields() -> Fields {
    then(FieldRule::Text("Result"@), then(FieldRule::Text("TransfererChannel"@), then(FieldRule::Text("TransfererUniqueid"@), then(FieldRule::Text("TransfereeChannel"@), then(FieldRule::Text("TransfereeUniqueid"@), Fields::End)))))
}

/// Fields of `BlindTransfer`.
pub open spec fn blind_transfer_fields() -> Fields {
    then(FieldRule::Text("Result"@), then(FieldRule::Text("TransfererChannel"@), then(FieldRule::Text("TransfererUniqueid"@), then(FieldRule::Text("Extension"@), then(FieldRule::Text("Context"@), Fields::End)))))
}

/// Fields of `BridgeMerge`.
pub open spec fn bridge_merge_fields() -> Fields {
    then(FieldRule::Text("BridgeUniqueid"@), then(FieldRule::Text("BridgeType"@), then(FieldRule::Text("ToBridgeUniqueid"@), Fields::End)))
}

/// Fields of `BridgeInfoChannel`.
pub open spec fn bridge_info_channel_fields() -> Fields {
    then(FieldRule::Text("BridgeUniqueid"@), then(FieldRule::Text("Channel"@), then(FieldRule::Text("Uniqueid"@), Fields::End)))
}

/// Fields of `BridgeInfoComplete`.
pub open spec fn bridge_info_complete_fields() -> Fields {
    then(FieldRule::Text("BridgeUniqueid"@), Fields::End)
}

/// Fields of `BridgeVideoSourceUpdate`.
pub open spec fn bridge_video_source_update_fields() -> Fields {
    then(FieldRule::Text("BridgeUniqueid"@), then(FieldRule::Text("BridgeVideoSourceUniqueid"@), Fields::End))
}

/// Fields of `LocalBridge`.
pub open spec fn local_bridge_fields() -> Fields {
    then(FieldRule::Text("Channel"@), then(FieldRule::Text("Uniqueid"@), then(FieldRule::Text("Context"@), then(FieldRule::Text("Exten"@), Fields::End))))
}

/// Fields of `LocalOptimizationBegin`.
pub open spec fn local_optimization_begin_fields() -> Fields {
    then(FieldRule::Text("Channel"@), then(FieldRule::Text("Uniqueid"@), then(FieldRule::Text("SourceUniqueid"@), then(FieldRule::Text("DestUniqueid"@), Fields::End))))
}

/// Fields of `LocalOptimizationEnd`.
pub open spec fn local_optimization_end_fields() -> Fields {
    then(FieldRule::Text("Channel"@), then(FieldRule::Text("Uniqueid"@), Fields::End))
}

/// Fields of `Cdr`.
pub open spec fn cdr_fields() -> Fields {
    then(FieldRule::Text("Channel"@), then(FieldRule::Text("Uniqueid"@), then(FieldRule::Text("Destination"@), then(FieldRule::Text("Disposition"@), then(FieldRule::Number("Duration"@), then(FieldRule::Number("BillableSeconds"@), then(FieldRule::Text("AccountCode"@), then(FieldRule::Text("Source"@), then(FieldRule::Text("DestinationContext"@), Fields::End)))))))))
}

/// Fields of `CEL`.
pub open spec fn cel_fields() -> Fields {
    then(FieldRule::Text("Channel"@), then(FieldRule::Text("Uniqueid"@), then(FieldRule::Text("EventName"@), then(FieldRule::Text("AccountCode"@), then(FieldRule::Text("ApplicationName"@), then(FieldRule::Text("ApplicationData"@), Fields::End))))))
}

/// Fields of `QueueCallerAbandon`.
pub open spec fn queue_caller_abandon_fields() -> Fields {
    then(FieldRule::Text("Channel"@), then(FieldRule::Text("Uniqueid"@), then(FieldRule::Text("Queue"@), then(FieldRule::Number("Position"@), then(FieldRule::Number("OriginalPosition"@), then(FieldRule::Number("HoldTime"@), Fields::End))))))
}

/// Fields of `QueueCallerJoin`.
pub open spec fn queue_caller_join_fields() -> Fields {
    then(FieldRule::Text("Channel"@), then(FieldRule::Text("Uniqueid"@), then(FieldRule::Text("Queue"@), then(FieldRule::Number("Position"@), then(FieldRule::Number("Count"@), Fields::End)))))
}

/// Fields of `QueueCallerLeave`.
pub open spec fn queue_caller_leave_fields() -> Fields {
    then(FieldRule::Text("Channel"@), then(FieldRule::Text("Uniqueid"@), then(FieldRule::Text("Queue"@), then(FieldRule::Number("Position"@), then(FieldRule::Number("Count"@), Fields::End)))))
}

/// Fields of `QueueMemberAdded`.
pub open spec fn queue_member_added_fields() -> Fields {
    then(FieldRule::Text("Queue"@), then(FieldRule::Text("MemberName"@), then(FieldRule::Text("Interface"@), then(FieldRule::Text("StateInterface"@), then(FieldRule::Text("Membership"@), then(FieldRule::Number("Penalty"@), then(FieldRule::Text("Paused"@), Fields::End)))))))
}

/// Fields of `QueueMemberRemoved`.
pub open spec fn queue_member_removed_fields() -> Fields {
    then(FieldRule::Text("Queue"@), then(FieldRule::Text("MemberName"@), then(FieldRule::Text("Interface"@), Fields::End)))
}

/// Fields of `QueueMemberPause`.
pub open spec fn queue_member_pause_fields() -> Fields {
    then(FieldRule::Text("Queue"@), then(FieldRule::Text("MemberName"@), then(FieldRule::Text("Interface"@), then(FieldRule::Text("Paused"@), then(FieldRule::Text("Reason"@), Fields::End)))))
}

/// Fields of `QueueMemberStatus`.
pub open spec fn queue_member_status_fields() -> Fields {
    then(FieldRule::Text("Queue"@), then(FieldRule::Text("MemberName"@), then(FieldRule::Text("Interface"@), then(FieldRule::Number("Status"@), then(FieldRule::Text("Paused"@), then(FieldRule::Number("CallsTaken"@), Fields::End))))))
}

/// Fields of `QueueMemberPenalty`.
pub open spec fn queue_member_penalty_fields() -> Fields {
    then(FieldRule::Text("Queue"@), then(FieldRule::Text("MemberName"@), then(FieldRule::Text("Interface"@), then(FieldRule::Number("Penalty"@), Fields::End))))
}

/// Fields of `QueueMemberRinginuse`.
pub open spec fn queue_member_ringinuse_fields() -> Fields {
    then(FieldRule::Text("Queue"@), then(FieldRule::Text("MemberName"@), then(FieldRule::Text("Interface"@), then(FieldRule::Text("Ringinuse"@), Fields::End))))
}

/// Fields of `QueueParams`.
pub open spec fn queue_params_fields() -> Fields {
    then(FieldRule::Text("Queue"@), then(FieldRule::Number("Max"@), then(FieldRule::Text("Strategy"@), then(FieldRule::Number("Calls"@), then(FieldRule::Number("Holdtime"@), then(FieldRule::Number("Talktime"@), then(FieldRule::Number("Completed"@), then(FieldRule::Number("Abandoned"@), Fields::End))))))))
}

/// Fields of `QueueEntry`.
pub open spec fn queue_entry_fields() -> Fields {
    then(FieldRule::Text("Queue"@), then(FieldRule::Number("Position"@), then(FieldRule::Text("Channel"@), then(FieldRule::Text("Uniqueid"@), then(FieldRule::Text("CallerIDNum"@), then(FieldRule::Text("CallerIDName"@), then(FieldRule::Number("Wait"@), Fields::End)))))))
}

/// Fields of `AgentCalled`.
pub open spec fn agent_called_fields() -> Fields {
    then(FieldRule::Text("Channel"@), then(FieldRule::Text("Uniqueid"@), then(FieldRule::Text("Queue"@), then(FieldRule::Text("Agent"@), then(FieldRule::Text("DestinationChannel"@), Fields::End)))))
}

/// Fields of `AgentConnect`.
pub open spec fn agent_connect_fields() -> Fields {
    then(FieldRule::Text("Channel"@), then(FieldRule::Text("Uniqueid"@), then(FieldRule::Text("Queue"@), then(FieldRule::Text("Agent"@), then(FieldRule::Number("HoldTime"@), then(FieldRule::Text("BridgeUniqueid"@), Fields::End))))))
}

/// Fields of `AgentComplete`.
pub open spec fn agent_complete_fields() -> Fields {
    then(FieldRule::Text("Channel"@), then(FieldRule::Text("Uniqueid"@), then(FieldRule::Text("Queue"@), then(FieldRule::Text("Agent"@), then(FieldRule::Number("HoldTime"@), then(FieldRule::Number("TalkTime"@), then(FieldRule::Text("Reason"@), Fields::End)))))))
}

/// Fields of `AgentDump`.
pub open spec fn agent_dump_fields() -> Fields {
    then(FieldRule::Text("Channel"@), then(FieldRule::Text("Uniqueid"@), then(FieldRule::Text("Queue"@), then(FieldRule::Text("Agent"@), Fields::End))))
}

/// Fields of `AgentLogin`.
pub open spec fn agent_login_fields() -> Fields {
    then(FieldRule::Text("Channel"@), then(FieldRule::Text("Uniqueid"@), then(FieldRule::Text("Agent"@), Fields::End)))
}

/// Fields of `AgentLogoff`.
pub open spec fn agent_logoff_fields() -> Fields {
    then(FieldRule::Text("Agent"@), then(FieldRule::Number("Logintime"@), Fields::End))
}

/// Fields of `AgentRingNoAnswer`.
pub open spec fn agent_ring_no_answer_fields() -> Fields {
    then(FieldRule::Text("Channel"@), then(FieldRule::Text("Uniqueid"@), then(FieldRule::Text("Queue"@), then(FieldRule::Text("Agent"@), then(FieldRule::Number("RingTime"@), Fields::End)))))
}

/// Fields of `Agents`.
pub open spec fn agents_fields() -> Fields {
    then(FieldRule::Text("Agent"@), then(FieldRule::Text("Name"@), then(FieldRule::Text("Status"@), then(FieldRule::Optional("Channel"@), Fields::End))))
}

/// Fields of `AgentsComplete`.
pub open spec fn agents_complete_fields() -> Fields {
    Fields::End
}

/// Fields of `ConfbridgeStart`.
pub open spec fn confbridge_start_fields() -> Fields {
    then(FieldRule::Text("BridgeUniqueid"@), then(FieldRule::Text("Conference"@), Fields::End))
}

/// Fields of `ConfbridgeEnd`.
pub open spec fn confbridge_end_fields() -> Fields {
    then(FieldRule::Text("BridgeUniqueid"@), then(FieldRule::Text("Conference"@), Fields::End))
}

/// Fields of `ConfbridgeJoin`.
pub open spec fn confbridge_join_fields() -> Fields {
    then(FieldRule::Text("BridgeUniqueid"@), then(FieldRule::Text("Conference"@), then(FieldRule::Text("Channel"@), then(FieldRule::Text("Uniqueid"@), then(FieldRule::Text("Admin"@), Fields::End)))))
}

/// Fields of `ConfbridgeLeave`.
pub open spec fn confbridge_leave_fields() -> Fields {
    then(FieldRule::Text("BridgeUniqueid"@), then(FieldRule::Text("Conference"@), then(FieldRule::Text("Channel"@), then(FieldRule::Text("Uniqueid"@), Fields::End))))
}

/// Fields of `ConfbridgeList`.
pub open spec fn confbridge_list_fields() -> Fields {
    then(FieldRule::Text("BridgeUniqueid"@), then(FieldRule::Text("Conference"@), then(FieldRule::Text("Channel"@), then(FieldRule::Text("Uniqueid"@), then(FieldRule::Text("Admin"@), then(FieldRule::Text("Muted"@), Fields::End))))))
}

/// Fields of `ConfbridgeMute`.
pub open spec fn confbridge_mute_fields() -> Fields {
    then(FieldRule::Text("BridgeUniqueid"@), then(FieldRule::Text("Conference"@), then(FieldRule::Text("Channel"@), then(FieldRule::Text("Uniqueid"@), Fields::End))))
}

/// Fields of `ConfbridgeUnmute`.
pub open spec fn confbridge_unmute_fields() -> Fields {
    then(FieldRule::Text("BridgeUniqueid"@), then(FieldRule::Text("Conference"@), then(FieldRule::Text("Channel"@), then(FieldRule::Text("Uniqueid"@), Fields::End))))
}

/// Fields of `ConfbridgeTalking`.
pub open spec fn confbridge_talking_fields() -> Fields {
    then(FieldRule::Text("BridgeUniqueid"@), then(FieldRule::Text("Conference"@), then(FieldRule::Text("Channel"@), then(FieldRule::Text("Uniqueid"@), then(FieldRule::Text("TalkingStatus"@), Fields::End)))))
}

/// Fields of `ConfbridgeRecord`.
pub open spec fn confbridge_record_fields() -> Fields {
    then(FieldRule::Text("BridgeUniqueid"@), then(FieldRule::Text("Conference"@), Fields::End))
}

/// Fields of `ConfbridgeStopRecord`.
pub open spec fn confbridge_stop_record_fields() -> Fields {
    then(FieldRule::Text("BridgeUniqueid"@), then(FieldRule::Text("Conference"@), Fields::End))
}

/// Fields of `ConfbridgeListRooms`.
pub open spec fn confbridge_list_rooms_fields() -> Fields {
    then(FieldRule::Text("Conference"@), then(FieldRule::Number("Parties"@), then(FieldRule::Number("Marked"@), then(FieldRule::Text("Locked"@), Fields::End))))
}

/// Fields of `MixMonitorStart`.
pub open spec fn mix_monitor_start_fields() -> Fields {
    then(FieldRule::Text("Channel"@), then(FieldRule::Text("Uniqueid"@), Fields::End))
}

/// Fields of `MixMonitorStop`.
pub open spec fn mix_monitor_stop_fields() -> Fields {
    then(FieldRule::Text("Channel"@), then(FieldRule::Text("Uniqueid"@), Fields::End))
}

/// Fields of `MixMonitorMute`.
pub open spec fn mix_monitor_mute_fields() -> Fields {
    then(FieldRule::Text("Channel"@), then(FieldRule::Text("Uniqueid"@), then(FieldRule::Text("Direction"@), then(FieldRule::Text("State"@), Fields::End))))
}

/// Fields of `MusicOnHoldStart`.
pub open spec fn music_on_hold_start_fields() -> Fields {
    then(FieldRule::Text("Channel"@), then(FieldRule::Text("Uniqueid"@), then(FieldRule::Text("Class"@), Fields::End)))
}

/// Fields of `MusicOnHoldStop`.
pub open spec fn music_on_hold_stop_fields() -> Fields {
    then(FieldRule::Text("Channel"@), then(FieldRule::Text("Uniqueid"@), Fields::End))
}

/// Fields of `ParkedCall`.
pub open spec fn parked_call_fields() -> Fields {
    then(FieldRule::Text("Channel"@), then(FieldRule::Text("Uniqueid"@), then(FieldRule::Text("ParkingLot"@), then(FieldRule::Number("ParkingSpace"@), then(FieldRule::Text("ParkerDialString"@), then(FieldRule::Number("Timeout"@), Fields::End))))))
}

/// Fields of `ParkedCallGiveUp`.
pub open spec fn parked_call_give_up_fields() -> Fields {
    then(FieldRule::Text("Channel"@), then(FieldRule::Text("Uniqueid"@), then(FieldRule::Text("ParkingLot"@), then(FieldRule::Number("ParkingSpace"@), Fields::End))))
}

/// Fields of `ParkedCallTimeOut`.
pub open spec fn parked_call_time_out_fields() -> Fields {
    then(FieldRule::Text("Channel"@), then(FieldRule::Text("Uniqueid"@), then(FieldRule::Text("ParkingLot"@), then(FieldRule::Number("ParkingSpace"@), Fields::End))))
}

/// Fields of `ParkedCallSwap`.
pub open spec fn parked_call_swap_fields() -> Fields {
    then(FieldRule::Text("Channel"@), then(FieldRule::Text("Uniqueid"@), then(FieldRule::Text("ParkingLot"@), then(FieldRule::Number("ParkingSpace"@), then(FieldRule::Text("ParkerChannel"@), Fields::End)))))
}

/// Fields of `UnParkedCall`.
pub open spec fn un_parked_call_fields() -> Fields {
    then(FieldRule::Text("Channel"@), then(FieldRule::Text("Uniqueid"@), then(FieldRule::Text("ParkingLot"@), then(FieldRule::Number("ParkingSpace"@), then(FieldRule::Text("RetrieverChannel"@), Fields::End)))))
}

/// Fields of `Pickup`.
pub open spec fn pickup_fields() -> Fields {
    then(FieldRule::Text("Channel"@), then(FieldRule::Text("Uniqueid"@), then(FieldRule::Text("TargetChannel"@), then(FieldRule::Text("TargetUniqueid"@), Fields::End))))
}

/// Fields of `ChanSpyStart`.
pub open spec fn chan_spy_start_fields() -> Fields {
    then(FieldRule::Text("Channel"@), then(FieldRule::Text("Uniqueid"@), then(FieldRule::Text("SpyeeChannel"@), then(FieldRule::Text("SpyeeUniqueid"@), Fields::End))))
}

/// Fields of `ChanSpyStop`.
pub open spec fn chan_spy_stop_fields() -> Fields {
    then(FieldRule::Text("Channel"@), then(FieldRule::Text("Uniqueid"@), then(FieldRule::Text("SpyeeChannel"@), then(FieldRule::Text("SpyeeUniqueid"@), Fields::End))))
}

/// Fields of `ChannelTalkingStart`.
pub open spec fn channel_talking_start_fields() -> Fields {
    then(FieldRule::Text("Channel"@), then(FieldRule::Text("Uniqueid"@), Fields::End))
}

/// Fields of `ChannelTalkingStop`.
pub open spec fn channel_talking_stop_fields() -> Fields {
    then(FieldRule::Text("Channel"@), then(FieldRule::Text("Uniqueid"@), then(FieldRule::Number("Duration"@), Fields::End)))
}

/// Fields of `DeviceStateChange`.
pub open spec fn device_state_change_fields() -> Fields {
    then(FieldRule::Text("Device"@), then(FieldRule::Text("State"@), Fields::End))
}

/// Fields of `ExtensionStatus`.
pub open spec fn extension_status_fields() -> Fields {
    then(FieldRule::Text("Exten"@), then(FieldRule::Text("Context"@), then(FieldRule::Text("Hint"@), then(FieldRule::Number("Status"@), then(FieldRule::Text("StatusText"@), Fields::End)))))
}

/// Fields of `PresenceStateChange`.
pub open spec fn presence_state_change_fields() -> Fields {
    then(FieldRule::Text("Presentity"@), then(FieldRule::Text("Status"@), then(FieldRule::Text("Subtype"@), then(FieldRule::Text("Message"@), Fields::End))))
}

/// Fields of `PresenceStatus`.
pub open spec fn presence_status_fields() -> Fields {
    then(FieldRule::Text("Presentity"@), then(FieldRule::Text("Status"@), then(FieldRule::Text("Subtype"@), then(FieldRule::Text("Message"@), Fields::End))))
}

/// Fields of `ContactStatus`.
pub open spec fn contact_status_fields() -> Fields {
    then(FieldRule::Text("URI"@), then(FieldRule::Text("ContactStatus"@), then(FieldRule::Text("AOR"@), then(FieldRule::Text("EndpointName"@), Fields::End))))
}

/// Fields of `Registry`.
pub open spec fn registry_fields() -> Fields {
    then(FieldRule::Text("ChannelType"@), then(FieldRule::Text("Domain"@), then(FieldRule::Text("Username"@), then(FieldRule::Text("Status"@), then(FieldRule::Text("Cause"@), Fields::End)))))
}

/// Fields of `MessageWaiting`.
pub open spec fn message_waiting_fields() -> Fields {
    then(FieldRule::Text("Mailbox"@), then(FieldRule::Text("Waiting"@), then(FieldRule::Number("New"@), then(FieldRule::Number("Old"@), Fields::End))))
}

/// Fields of `VoicemailPasswordChange`.
pub open spec fn voicemail_password_change_fields() -> Fields {
    then(FieldRule::Text("Context"@), then(FieldRule::Text("Mailbox"@), then(FieldRule::Text("NewPassword"@), Fields::End)))
}

/// Fields of `RTCPReceived`.
pub open spec fn rtcp_received_fields() -> Fields {
    then(FieldRule::Text("Channel"@), then(FieldRule::Text("Uniqueid"@), then(FieldRule::Text("SSRC"@), then(FieldRule::Text("PT"@), then(FieldRule::Text("From"@), Fields::End)))))
}

/// Fields of `RTCPSent`.
pub open spec fn rtcp_sent_fields() -> Fields {
    then(FieldRule::Text("Channel"@), then(FieldRule::Text("Uniqueid"@), then(FieldRule::Text("SSRC"@), then(FieldRule::Text("PT"@), then(FieldRule::Text("To"@), Fields::End)))))
}

/// Fields of `FailedACL`.
pub open spec fn failed_acl_fields() -> Fields {
    then(FieldRule::Text("Severity"@), then(FieldRule::Text("Service"@), then(FieldRule::Text("AccountID"@), then(FieldRule::Text("RemoteAddress"@), Fields::End))))
}

/// Fields of `InvalidAccountID`.
pub open spec fn invalid_account_id_fields() -> Fields {
    then(FieldRule::Text("Severity"@), then(FieldRule::Text("Service"@), then(FieldRule::Text("AccountID"@), then(FieldRule::Text("RemoteAddress"@), Fields::End))))
}

/// Fields of `InvalidPassword`.
pub open spec fn invalid_password_fields() -> Fields {
    then(FieldRule::Text("Severity"@), then(FieldRule::Text("Service"@), then(FieldRule::Text("AccountID"@), then(FieldRule::Text("RemoteAddress"@), Fields::End))))
}

/// Fields of `ChallengeResponseFailed`.
pub open spec fn challenge_response_failed_fields() -> Fields {
    then(FieldRule::Text("Severity"@), then(FieldRule::Text("Service"@), then(FieldRule::Text("AccountID"@), then(FieldRule::Text("RemoteAddress"@), Fields::End))))
}

/// Fields of `ChallengeSent`.
pub open spec fn challenge_sent_fields() -> Fields {
    then(FieldRule::Text("Severity"@), then(FieldRule::Text("Service"@), then(FieldRule::Text("AccountID"@), then(FieldRule::Text("RemoteAddress"@), Fields::End))))
}

/// Fields of `SuccessfulAuth`.
pub open spec fn successful_auth_fields() -> Fields {
    then(FieldRule::Text("Severity"@), then(FieldRule::Text("Service"@), then(FieldRule::Text("AccountID"@), then(FieldRule::Text("RemoteAddress"@), Fields::End))))
}

/// Fields of `SessionLimit`.
pub open spec fn session_limit_fields() -> Fields {
    then(FieldRule::Text("Severity"@), then(FieldRule::Text("Service"@), then(FieldRule::Text("AccountID"@), then(FieldRule::Text("RemoteAddress"@), Fields::End))))
}

/// Fields of `UnexpectedAddress`.
pub open spec fn unexpected_address_fields() -> Fields {
    then(FieldRule::Text("Severity"@), then(FieldRule::Text("Service"@), then(FieldRule::Text("AccountID"@), then(FieldRule::Text("RemoteAddress"@), Fields::End))))
}

/// Fields of `RequestBadFormat`.
pub open spec fn request_bad_format_fields() -> Fields {
    then(FieldRule::Text("Severity"@), then(FieldRule::Text("Service"@), then(FieldRule::Text("AccountID"@), then(FieldRule::Text("RemoteAddress"@), Fields::End))))
}

/// Fields of `RequestNotAllowed`.
pub open spec fn request_not_allowed_fields() -> Fields {
    then(FieldRule::Text("Severity"@), then(FieldRule::Text("Service"@), then(FieldRule::Text("AccountID"@), then(FieldRule::Text("RemoteAddress"@), Fields::End))))
}

/// Fields of `RequestNotSupported`.
pub open spec fn request_not_supported_fields() -> Fields {
    then(FieldRule::Text("Severity"@), then(FieldRule::Text("Service"@), then(FieldRule::Text("AccountID"@), then(FieldRule::Text("RemoteAddress"@), Fields::End))))
}

/// Fields of `InvalidTransport`.
pub open spec fn invalid_transport_fields() -> Fields {
    then(FieldRule::Text("Severity"@), then(FieldRule::Text("Service"@), then(FieldRule::Text("AccountID"@), then(FieldRule::Text("RemoteAddress"@), Fields::End))))
}

/// Fields of `AuthMethodNotAllowed`.
pub open spec fn auth_method_not_allowed_fields() -> Fields {
    then(FieldRule::Text("Severity"@), then(FieldRule::Text("Service"@), then(FieldRule::Text("AccountID"@), then(FieldRule::Text("RemoteAddress"@), Fields::End))))
}

/// Fields of `Shutdown`.
pub open spec fn shutdown_fields() -> Fields {
    then(FieldRule::Text("Shutdown"@), then(FieldRule::Text("Restart"@), Fields::End))
}

/// Fields of `Reload`.
pub open spec fn reload_fields() -> Fields {
    then(FieldRule::Text("Module"@), then(FieldRule::Text("Status"@), Fields::End))
}

/// Fields of `Load`.
pub open spec fn load_fields() -> Fields {
    then(FieldRule::Text("Module"@), then(FieldRule::Text("Status"@), Fields::End))
}

/// Fields of `Unload`.
pub open spec fn unload_fields() -> Fields {
    then(FieldRule::Text("Module"@), then(FieldRule::Text("Status"@), Fields::End))
}

/// Fields of `LogChannel`.
pub open spec fn log_channel_fields() -> Fields {
    then(FieldRule::Text("Channel"@), then(FieldRule::Text("Enabled"@), Fields::End))
}

/// Fields of `LoadAverageLimit`.
pub open spec fn load_average_limit_fields() -> Fields {
    Fields::End
}

/// Fields of `MemoryLimit`.
pub open spec fn memory_limit_fields() -> Fields {
    Fields::End
}

/// Fields of `AsyncAGIStart`.
pub open spec fn async_agi_start_fields() -> Fields {
    then(FieldRule::Text("Channel"@), then(FieldRule::Text("Uniqueid"@), then(FieldRule::Text("Env"@), Fields::End)))
}

/// Fields of `AsyncAGIExec`.
pub open spec fn async_agi_exec_fields() -> Fields {
    then(FieldRule::Text("Channel"@), then(FieldRule::Text("Uniqueid"@), then(FieldRule::Text("CommandID"@), then(FieldRule::Text("Result"@), Fields::End))))
}

/// Fields of `AsyncAGIEnd`.
pub open spec fn async_agi_end_fields() -> Fields {
    then(FieldRule::Text("Channel"@), then(FieldRule::Text("Uniqueid"@), Fields::End))
}

/// Fields of `AGIExecStart`.
pub open spec fn agi_exec_start_fields() -> Fields {
    then(FieldRule::Text("Channel"@), then(FieldRule::Text("Uniqueid"@), then(FieldRule::Text("Command"@), then(FieldRule::Text("CommandId"@), Fields::End))))
}

/// Fields of `AGIExecEnd`.
pub open spec fn agi_exec_end_fields() -> Fields {
    then(FieldRule::Text("Channel"@), then(FieldRule::Text("Uniqueid"@), then(FieldRule::Text("Command"@), then(FieldRule::Text("CommandId"@), then(FieldRule::Text("ResultCode"@), then(FieldRule::Text("Result"@), Fields::End))))))
}

/// Fields of `HangupHandlerPush`.
pub open spec fn hangup_handler_push_fields() -> Fields {
    then(FieldRule::Text("Channel"@), then(FieldRule::Text("Uniqueid"@), then(FieldRule::Text("Handler"@), Fields::End)))
}

/// Fields of `HangupHandlerPop`.
pub open spec fn hangup_handler_pop_fields() -> Fields {
    then(FieldRule::Text("Channel"@), then(FieldRule::Text("Uniqueid"@), then(FieldRule::Text("Handler"@), Fields::End)))
}

/// Fields of `HangupHandlerRun`.
pub open spec fn hangup_handler_run_fields() -> Fields {
    then(FieldRule::Text("Channel"@), then(FieldRule::Text("Uniqueid"@), then(FieldRule::Text("Handler"@), Fields::End)))
}

/// Fields of `Status`.
pub open spec fn status_fields() -> Fields {
    then(FieldRule::Text("Channel"@), then(FieldRule::Text("Uniqueid"@), then(FieldRule::Text("ChannelState"@), then(FieldRule::Text("CallerIDNum"@), then(FieldRule::Text("CallerIDName"@), then(FieldRule::Text("AccountCode"@), then(FieldRule::Text("Context"@), then(FieldRule::Text("Exten"@), then(FieldRule::Number("Priority"@), then(FieldRule::Number("Seconds"@), then(FieldRule::Text("BridgeID"@), then(FieldRule::ChannelVariables, Fields::End))))))))))))
}

/// Fields of `StatusComplete`.
pub open spec fn status_complete_fields() -> Fields {
    then(FieldRule::Number("Items"@), Fields::End)
}

/// Fields of `CoreShowChannel`.
pub open spec fn core_show_channel_fields() -> Fields {
    then(FieldRule::Text("Channel"@), then(FieldRule::Text("Uniqueid"@), then(FieldRule::Text("ChannelState"@), then(FieldRule::Text("CallerIDNum"@), then(FieldRule::Text("CallerIDName"@), then(FieldRule::Text("Application"@), then(FieldRule::Text("ApplicationData"@), then(FieldRule::Text("Duration"@), then(FieldRule::Text("BridgeID"@), then(FieldRule::ChannelVariables, Fields::End))))))))))
}

/// Fields of `CoreShowChannelsComplete`.
pub open spec fn core_show_channels_complete_fields() -> Fields {
    then(FieldRule::Number("ListItems"@), Fields::End)
}

/// Fields of `CoreShowChannelMapComplete`.
pub open spec fn core_show_channel_map_complete_fields() -> Fields {
    Fields::End
}

/// Fields of `DAHDIChannel`.
pub open spec fn dahdi_channel_fields() -> Fields {
    then(FieldRule::Text("DAHDIChannel"@), then(FieldRule::Optional("Channel"@), then(FieldRule::Optional("Uniqueid"@), Fields::End)))
}

/// Fields of `Alarm`.
pub open spec fn alarm_fields() -> Fields {
    then(FieldRule::Text("Alarm"@), then(FieldRule::Text("Channel"@), Fields::End))
}

/// Fields of `AlarmClear`.
pub open spec fn alarm_clear_fields() -> Fields {
    then(FieldRule::Text("Channel"@), Fields::End)
}

/// Fields of `SpanAlarm`.
pub open spec fn span_alarm_fields() -> Fields {
    then(FieldRule::Number("Span"@), then(FieldRule::Text("Alarm"@), Fields::End))
}

/// Fields of `SpanAlarmClear`.
pub open spec fn span_alarm_clear_fields() -> Fields {
    then(FieldRule::Number("Span"@), Fields::End)
}

/// Fields of `AOC-D`.
pub open spec fn aoc_d_fields() -> Fields {
    then(FieldRule::Text("Channel"@), then(FieldRule::Text("Uniqueid"@), then(FieldRule::Text("ChargeType"@), Fields::End)))
}

/// Fields of `AOC-E`.
pub open spec fn aoc_e_fields() -> Fields {
    then(FieldRule::Text("Channel"@), then(FieldRule::Text("Uniqueid"@), then(FieldRule::Text("ChargeType"@), Fields::End)))
}

/// Fields of `AOC-S`.
pub open spec fn aoc_s_fields() -> Fields {
    then(FieldRule::Text("Channel"@), then(FieldRule::Text("Uniqueid"@), Fields::End))
}

/// Fields of `FAXStatus`.
pub open spec fn fax_status_fields() -> Fields {
    then(FieldRule::Text("Channel"@), then(FieldRule::Text("Uniqueid"@), then(FieldRule::Text("Operation"@), then(FieldRule::Text("Status"@), then(FieldRule::Text("LocalStationID"@), then(FieldRule::Text("FileName"@), Fields::End))))))
}

/// Fields of `ReceiveFAX`.
pub open spec fn receive_fax_fields() -> Fields {
    then(FieldRule::Text("Channel"@), then(FieldRule::Text("Uniqueid"@), then(FieldRule::Text("LocalStationID"@), then(FieldRule::Text("RemoteStationID"@), then(FieldRule::Number("PagesTransferred"@), then(FieldRule::Text("Resolution"@), then(FieldRule::Text("FileName"@), Fields::End)))))))
}

/// Fields of `SendFAX`.
pub open spec fn send_fax_fields() -> Fields {
    then(FieldRule::Text("Channel"@), then(FieldRule::Text("Uniqueid"@), then(FieldRule::Text("LocalStationID"@), then(FieldRule::Text("RemoteStationID"@), then(FieldRule::Number("PagesTransferred"@), then(FieldRule::Text("Resolution"@), then(FieldRule::Text("FileName"@), Fields::End)))))))
}

/// Fields of `MeetmeJoin`.
pub open spec fn meetme_join_fields() -> Fields {
    then(FieldRule::Text("Meetme"@), then(FieldRule::Text("Usernum"@), then(FieldRule::Text("Channel"@), then(FieldRule::Text("Uniqueid"@), Fields::End))))
}

/// Fields of `MeetmeLeave`.
pub open spec fn meetme_leave_fields() -> Fields {
    then(FieldRule::Text("Meetme"@), then(FieldRule::Text("Usernum"@), then(FieldRule::Text("Channel"@), then(FieldRule::Text("Uniqueid"@), then(FieldRule::Number("Duration"@), Fields::End)))))
}

/// Fields of `MeetmeEnd`.
pub open spec fn meetme_end_fields() -> Fields {
    then(FieldRule::Text("Meetme"@), Fields::End)
}

/// Fields of `MeetmeMute`.
pub open spec fn meetme_mute_fields() -> Fields {
    then(FieldRule::Text("Meetme"@), then(FieldRule::Text("Usernum"@), then(FieldRule::Text("Channel"@), then(FieldRule::Text("Uniqueid"@), then(FieldRule::Text("Status"@), Fields::End)))))
}

/// Fields of `MeetmeTalking`.
pub open spec fn meetme_talking_fields() -> Fields {
    then(FieldRule::Text("Meetme"@), then(FieldRule::Text("Usernum"@), then(FieldRule::Text("Channel"@), then(FieldRule::Text("Uniqueid"@), then(FieldRule::Text("Status"@), Fields::End)))))
}

/// Fields of `MeetmeTalkRequest`.
pub open spec fn meetme_talk_request_fields() -> Fields {
    then(FieldRule::Text("Meetme"@), then(FieldRule::Text("Usernum"@), then(FieldRule::Text("Channel"@), then(FieldRule::Text("Uniqueid"@), then(FieldRule::Text("Status"@), Fields::End)))))
}

/// Fields of `MeetmeList`.
pub open spec fn meetme_list_fields() -> Fields {
    then(FieldRule::Text("Meetme"@), then(FieldRule::Text("Usernum"@), then(FieldRule::Text("Channel"@), then(FieldRule::Text("Uniqueid"@), then(FieldRule::Text("Admin"@), then(FieldRule::Text("Muted"@), then(FieldRule::Text("Talking"@), Fields::End)))))))
}

/// Fields of `MeetmeListRooms`.
pub open spec fn meetme_list_rooms_fields() -> Fields {
    then(FieldRule::Text("Conference"@), then(FieldRule::Number("Parties"@), then(FieldRule::Number("Marked"@), then(FieldRule::Text("Locked"@), Fields::End))))
}

/// Fields of `DeviceStateListComplete`.
pub open spec fn device_state_list_complete_fields() -> Fields {
    then(FieldRule::Number("ListItems"@), Fields::End)
}

/// Fields of `ExtensionStateListComplete`.
pub open spec fn extension_state_list_complete_fields() -> Fields {
    then(FieldRule::Number("ListItems"@), Fields::End)
}

/// Fields of `PresenceStateListComplete`.
pub open spec fn presence_state_list_complete_fields() -> Fields {
    then(FieldRule::Number("ListItems"@), Fields::End)
}

/// Fields of `AorDetail`.
pub open spec fn aor_detail_fields() -> Fields {
    then(FieldRule::Text("ObjectName"@), then(FieldRule::Text("Contacts"@), Fields::End))
}

/// Fields of `AorList`.
pub open spec fn aor_list_fields() -> Fields {
    then(FieldRule::Text("ObjectName"@), Fields::End)
}

/// Fields of `AorListComplete`.
pub open spec fn aor_list_complete_fields() -> Fields {
    then(FieldRule::Number("ListItems"@), Fields::End)
}

/// Fields of `AuthDetail`.
pub open spec fn auth_detail_fields() -> Fields {
    then(FieldRule::Text("ObjectName"@), then(FieldRule::Text("Username"@), Fields::End))
}

/// Fields of `AuthList`.
pub open spec fn auth_list_fields() -> Fields {
    then(FieldRule::Text("ObjectName"@), Fields::End)
}

/// Fields of `AuthListComplete`.
pub open spec fn auth_list_complete_fields() -> Fields {
    then(FieldRule::Number("ListItems"@), Fields::End)
}

/// Fields of `ContactList`.
pub open spec fn contact_list_fields() -> Fields {
    then(FieldRule::Text("URI"@), then(FieldRule::Text("ContactStatus"@), then(FieldRule::Text("AOR"@), Fields::End)))
}

/// Fields of `ContactListComplete`.
pub open spec fn contact_list_complete_fields() -> Fields {
    then(FieldRule::Number("ListItems"@), Fields::End)
}

/// Fields of `ContactStatusDetail`.
pub open spec fn contact_status_detail_fields() -> Fields {
    then(FieldRule::Text("URI"@), then(FieldRule::Text("ContactStatus"@), then(FieldRule::Text("AOR"@), Fields::End)))
}

/// Fields of `EndpointDetail`.
pub open spec fn endpoint_detail_fields() -> Fields {
    then(FieldRule::Text("ObjectName"@), then(FieldRule::Text("DeviceState"@), then(FieldRule::Text("ActiveChannels"@), Fields::End)))
}

/// Fields of `EndpointDetailComplete`.
pub open spec fn endpoint_detail_complete_fields() -> Fields {
    then(FieldRule::Number("ListItems"@), Fields::End)
}

/// Fields of `EndpointList`.
pub open spec fn endpoint_list_fields() -> Fields {
    then(FieldRule::Text("ObjectName"@), then(FieldRule::Text("Transport"@), then(FieldRule::Text("Aor"@), Fields::End)))
}

/// Fields of `EndpointListComplete`.
pub open spec fn endpoint_list_complete_fields() -> Fields {
    then(FieldRule::Number("ListItems"@), Fields::End)
}

/// Fields of `IdentifyDetail`.
pub open spec fn identify_detail_fields() -> Fields {
    then(FieldRule::Text("ObjectName"@), then(FieldRule::Text("Endpoint"@), Fields::End))
}

/// Fields of `TransportDetail`.
pub open spec fn transport_detail_fields() -> Fields {
    then(FieldRule::Text("ObjectName"@), then(FieldRule::Text("Protocol"@), Fields::End))
}

/// Fields of `ResourceListDetail`.
pub open spec fn resource_list_detail_fields() -> Fields {
    then(FieldRule::Text("ObjectName"@), Fields::End)
}

/// Fields of `InboundRegistrationDetail`.
pub open spec fn inbound_registration_detail_fields() -> Fields {
    then(FieldRule::Text("ObjectName"@), then(FieldRule::Text("Contacts"@), Fields::End))
}

/// Fields of `OutboundRegistrationDetail`.
pub open spec fn outbound_registration_detail_fields() -> Fields {
    then(FieldRule::Text("ObjectName"@), then(FieldRule::Text("ServerUri"@), Fields::End))
}

/// Fields of `InboundSubscriptionDetail`.
pub open spec fn inbound_subscription_detail_fields() -> Fields {
    then(FieldRule::Text("ObjectName"@), Fields::End)
}

/// Fields of `OutboundSubscriptionDetail`.
pub open spec fn outbound_subscription_detail_fields() -> Fields {
    then(FieldRule::Text("ObjectName"@), Fields::End)
}

/// Fields of `MWIGet`.
pub open spec fn mwi_get_fields() -> Fields {
    then(FieldRule::Text("Mailbox"@), then(FieldRule::Number("OldMessages"@), then(FieldRule::Number("NewMessages"@), Fields::End)))
}

/// Fields of `MWIGetComplete`.
pub open spec fn mwi_get_complete_fields() -> Fields {
    then(FieldRule::Number("ListItems"@), Fields::End)
}

/// Fields of `MiniVoiceMail`.
pub open spec fn mini_voice_mail_fields() -> Fields {
    then(FieldRule::Text("Channel"@), then(FieldRule::Text("Uniqueid"@), then(FieldRule::Text("Mailbox"@), then(FieldRule::Text("Counter"@), Fields::End))))
}

/// Fields of `FAXSession`.
pub open spec fn fax_session_fields() -> Fields {
    then(FieldRule::Text("Channel"@), then(FieldRule::Text("Uniqueid"@), then(FieldRule::Text("SessionNumber"@), Fields::End)))
}

/// Fields of `FAXSessionsEntry`.
pub open spec fn fax_sessions_entry_fields() -> Fields {
    then(FieldRule::Text("Channel"@), then(FieldRule::Text("SessionNumber"@), then(FieldRule::Text("Technology"@), then(FieldRule::Text("State"@), then(FieldRule::Text("Files"@), Fields::End)))))
}

/// Fields of `FAXSessionsComplete`.
pub open spec fn fax_sessions_complete_fields() -> Fields {
    then(FieldRule::Number("Total"@), Fields::End)
}

/// Fields of `FAXStats`.
pub open spec fn fax_stats_fields() -> Fields {
    then(FieldRule::Number("CurrentSessions"@), then(FieldRule::Number("ReservedSessions"@), then(FieldRule::Number("TransmitAttempts"@), then(FieldRule::Number("ReceiveAttempts"@), then(FieldRule::Number("CompletedFAXes"@), then(FieldRule::Number("FailedFAXes"@), Fields::End))))))
}

/// Fields of `DNDState`.
pub open spec fn dnd_state_fields() -> Fields {
    then(FieldRule::Text("Channel"@), then(FieldRule::Text("Status"@), Fields::End))
}

/// Fields of `DeadlockStart`.
pub open spec fn deadlock_start_fields() -> Fields {
    Fields::End
}

/// Fields of `MCID`.
pub open spec fn mcid_fields() -> Fields {
    then(FieldRule::Text("Channel"@), then(FieldRule::Text("Uniqueid"@), then(FieldRule::Text("CallerIDNum"@), then(FieldRule::Text("CallerIDName"@), Fields::End))))
}

/// The fields read for a kind (none for `Malformed` and `Unknown`).
pub open spec fn kind_fields(k: EventKind) -> Fields {
    match k {
        EventKind::NewChannel => new_channel_fields(),
        EventKind::Hangup => hangup_fields(),
        EventKind::Newstate => newstate_fields(),
        EventKind::DialBegin => dial_begin_fields(),
        EventKind::DialEnd => dial_end_fields(),
        EventKind::DtmfBegin => dtmf_begin_fields(),
        EventKind::DtmfEnd => dtmf_end_fields(),
        EventKind::FullyBooted => fully_booted_fields(),
        EventKind::PeerStatus => peer_status_fields(),
        EventKind::BridgeCreate => bridge_create_fields(),
        EventKind::BridgeDestroy => bridge_destroy_fields(),
        EventKind::BridgeEnter => bridge_enter_fields(),
        EventKind::BridgeLeave => bridge_leave_fields(),
        EventKind::VarSet => var_set_fields(),
        EventKind::Hold => hold_fields(),
        EventKind::Unhold => unhold_fields(),
        EventKind::HangupRequest => hangup_request_fields(),
        EventKind::SoftHangupRequest => soft_hangup_request_fields(),
        EventKind::NewExten => new_exten_fields(),
        EventKind::NewCallerid => new_callerid_fields(),
        EventKind::NewConnectedLine => new_connected_line_fields(),
        EventKind::NewAccountCode => new_account_code_fields(),
        EventKind::Rename => rename_fields(),
        EventKind::OriginateResponse => originate_response_fields(),
        EventKind::DialState => dial_state_fields(),
        EventKind::Flash => flash_fields(),
        EventKind::Wink => wink_fields(),
        EventKind::UserEvent => user_event_fields(),
        EventKind::AttendedTransfer => attended_transfer_fields(),
        EventKind::BlindTransfer => blind_transfer_fields(),
        EventKind::BridgeMerge => bridge_merge_fields(),
        EventKind::BridgeInfoChannel => bridge_info_channel_fields(),
        EventKind::BridgeInfoComplete => bridge_info_complete_fields(),
        EventKind::BridgeVideoSourceUpdate => bridge_video_source_update_fields(),
        EventKind::LocalBridge => local_bridge_fields(),
        EventKind::LocalOptimizationBegin => local_optimization_begin_fields(),
        EventKind::LocalOptimizationEnd => local_optimization_end_fields(),
        EventKind::Cdr => cdr_fields(),
        EventKind::Cel => cel_fields(),
        EventKind::QueueCallerAbandon => queue_caller_abandon_fields(),
        EventKind::QueueCallerJoin => queue_caller_join_fields(),
        EventKind::QueueCallerLeave => queue_caller_leave_fields(),
        EventKind::QueueMemberAdded => queue_member_added_fields(),
        EventKind::QueueMemberRemoved => queue_member_removed_fields(),
        EventKind::QueueMemberPause => queue_member_pause_fields(),
        EventKind::QueueMemberStatus => queue_member_status_fields(),
        EventKind::QueueMemberPenalty => queue_member_penalty_fields(),
        EventKind::QueueMemberRinginuse => queue_member_ringinuse_fields(),
        EventKind::QueueParams => queue_params_fields(),
        EventKind::QueueEntry => queue_entry_fields(),
        EventKind::AgentCalled => agent_called_fields(),
        EventKind::AgentConnect => agent_connect_fields(),
        EventKind::AgentComplete => agent_complete_fields(),
        EventKind::AgentDump => agent_dump_fields(),
        EventKind::AgentLogin => agent_login_fields(),
        EventKind::AgentLogoff => agent_logoff_fields(),
        EventKind::AgentRingNoAnswer => agent_ring_no_answer_fields(),
        EventKind::Agents => agents_fields(),
        EventKind::AgentsComplete => agents_complete_fields(),
        EventKind::ConfbridgeStart => confbridge_start_fields(),
        EventKind::ConfbridgeEnd => confbridge_end_fields(),
        EventKind::ConfbridgeJoin => confbridge_join_fields(),
        EventKind::ConfbridgeLeave => confbridge_leave_fields(),
        EventKind::ConfbridgeList => confbridge_list_fields(),
        EventKind::ConfbridgeMute => confbridge_mute_fields(),
        EventKind::ConfbridgeUnmute => confbridge_unmute_fields(),
        EventKind::ConfbridgeTalking => confbridge_talking_fields(),
        EventKind::ConfbridgeRecord => confbridge_record_fields(),
        EventKind::ConfbridgeStopRecord => confbridge_stop_record_fields(),
        EventKind::ConfbridgeListRooms => confbridge_list_rooms_fields(),
        EventKind::MixMonitorStart => mix_monitor_start_fields(),
        EventKind::MixMonitorStop => mix_monitor_stop_fields(),
        EventKind::MixMonitorMute => mix_monitor_mute_fields(),
        EventKind::MusicOnHoldStart => music_on_hold_start_fields(),
        EventKind::MusicOnHoldStop => music_on_hold_stop_fields(),
        EventKind::ParkedCall => parked_call_fields(),
        EventKind::ParkedCallGiveUp => parked_call_give_up_fields(),
        EventKind::ParkedCallTimeOut => parked_call_time_out_fields(),
        EventKind::ParkedCallSwap => parked_call_swap_fields(),
        EventKind::UnParkedCall => un_parked_call_fields(),
        EventKind::Pickup => pickup_fields(),
        EventKind::ChanSpyStart => chan_spy_start_fields(),
        EventKind::ChanSpyStop => chan_spy_stop_fields(),
        EventKind::ChannelTalkingStart => channel_talking_start_fields(),
        EventKind::ChannelTalkingStop => channel_talking_stop_fields(),
        EventKind::DeviceStateChange => device_state_change_fields(),
        EventKind::ExtensionStatus => extension_status_fields(),
        EventKind::PresenceStateChange => presence_state_change_fields(),
        EventKind::PresenceStatus => presence_status_fields(),
        EventKind::ContactStatus => contact_status_fields(),
        EventKind::Registry => registry_fields(),
        EventKind::MessageWaiting => message_waiting_fields(),
        EventKind::VoicemailPasswordChange => voicemail_password_change_fields(),
        EventKind::RTCPReceived => rtcp_received_fields(),
        EventKind::RTCPSent => rtcp_sent_fields(),
        EventKind::FailedACL => failed_acl_fields(),
        EventKind::InvalidAccountID => invalid_account_id_fields(),
        EventKind::InvalidPassword => invalid_password_fields(),
        EventKind::ChallengeResponseFailed => challenge_response_failed_fields(),
        EventKind::ChallengeSent => challenge_sent_fields(),
        EventKind::SuccessfulAuth => successful_auth_fields(),
        EventKind::SessionLimit => session_limit_fields(),
        EventKind::UnexpectedAddress => unexpected_address_fields(),
        EventKind::RequestBadFormat => request_bad_format_fields(),
        EventKind::RequestNotAllowed => request_not_allowed_fields(),
        EventKind::RequestNotSupported => request_not_supported_fields(),
        EventKind::InvalidTransport => invalid_transport_fields(),
        EventKind::AuthMethodNotAllowed => auth_method_not_allowed_fields(),
        EventKind::Shutdown => shutdown_fields(),
        EventKind::Reload => reload_fields(),
        EventKind::Load => load_fields(),
        EventKind::Unload => unload_fields(),
        EventKind::LogChannel => log_channel_fields(),
        EventKind::LoadAverageLimit => load_average_limit_fields(),
        EventKind::MemoryLimit => memory_limit_fields(),
        EventKind::AsyncAGIStart => async_agi_start_fields(),
        EventKind::AsyncAGIExec => async_agi_exec_fields(),
        EventKind::AsyncAGIEnd => async_agi_end_fields(),
        EventKind::AGIExecStart => agi_exec_start_fields(),
        EventKind::AGIExecEnd => agi_exec_end_fields(),
        EventKind::HangupHandlerPush => hangup_handler_push_fields(),
        EventKind::HangupHandlerPop => hangup_handler_pop_fields(),
        EventKind::HangupHandlerRun => hangup_handler_run_fields(),
        EventKind::Status => status_fields(),
        EventKind::StatusComplete => status_complete_fields(),
        EventKind::CoreShowChannel => core_show_channel_fields(),
        EventKind::CoreShowChannelsComplete => core_show_channels_complete_fields(),
        EventKind::CoreShowChannelMapComplete => core_show_channel_map_complete_fields(),
        EventKind::DAHDIChannel => dahdi_channel_fields(),
        EventKind::Alarm => alarm_fields(),
        EventKind::AlarmClear => alarm_clear_fields(),
        EventKind::SpanAlarm => span_alarm_fields(),
        EventKind::SpanAlarmClear => span_alarm_clear_fields(),
        EventKind::AocD => aoc_d_fields(),
        EventKind::AocE => aoc_e_fields(),
        EventKind::AocS => aoc_s_fields(),
        EventKind::FAXStatus => fax_status_fields(),
        EventKind::ReceiveFAX => receive_fax_fields(),
        EventKind::SendFAX => send_fax_fields(),
        EventKind::MeetmeJoin => meetme_join_fields(),
        EventKind::MeetmeLeave => meetme_leave_fields(),
        EventKind::MeetmeEnd => meetme_end_fields(),
        EventKind::MeetmeMute => meetme_mute_fields(),
        EventKind::MeetmeTalking => meetme_talking_fields(),
        EventKind::MeetmeTalkRequest => meetme_talk_request_fields(),
        EventKind::MeetmeList => meetme_list_fields(),
        EventKind::MeetmeListRooms => meetme_list_rooms_fields(),
        EventKind::DeviceStateListComplete => device_state_list_complete_fields(),
        EventKind::ExtensionStateListComplete => extension_state_list_complete_fields(),
        EventKind::PresenceStateListComplete => presence_state_list_complete_fields(),
        EventKind::AorDetail => aor_detail_fields(),
        EventKind::AorList => aor_list_fields(),
        EventKind::AorListComplete => aor_list_complete_fields(),
        EventKind::AuthDetail => auth_detail_fields(),
        EventKind::AuthList => auth_list_fields(),
        EventKind::AuthListComplete => auth_list_complete_fields(),
        EventKind::ContactList => contact_list_fields(),
        EventKind::ContactListComplete => contact_list_complete_fields(),
        EventKind::ContactStatusDetail => contact_status_detail_fields(),
        EventKind::EndpointDetail => endpoint_detail_fields(),
        EventKind::EndpointDetailComplete => endpoint_detail_complete_fields(),
        EventKind::EndpointList => endpoint_list_fields(),
        EventKind::EndpointListComplete => endpoint_list_complete_fields(),
        EventKind::IdentifyDetail => identify_detail_fields(),
        EventKind::TransportDetail => transport_detail_fields(),
        EventKind::ResourceListDetail => resource_list_detail_fields(),
        EventKind::InboundRegistrationDetail => inbound_registration_detail_fields(),
        EventKind::OutboundRegistrationDetail => outbound_registration_detail_fields(),
        EventKind::InboundSubscriptionDetail => inbound_subscription_detail_fields(),
        EventKind::OutboundSubscriptionDetail => outbound_subscription_detail_fields(),
        EventKind::MWIGet => mwi_get_fields(),
        EventKind::MWIGetComplete => mwi_get_complete_fields(),
        EventKind::MiniVoiceMail => mini_voice_mail_fields(),
        EventKind::FAXSession => fax_session_fields(),
        EventKind::FAXSessionsEntry => fax_sessions_entry_fields(),
        EventKind::FAXSessionsComplete => fax_sessions_complete_fields(),
        EventKind::FAXStats => fax_stats_fields(),
        EventKind::DNDState => dnd_state_fields(),
        EventKind::DeadlockStart => deadlock_start_fields(),
        EventKind::MCID => mcid_fields(),
        _ => Fields::End,
    }
}

/// Known events, part 1.
pub open spec fn schema_01(name: Seq<char>) -> Option<(EventKind, Fields)> {
    if name == "Newchannel"@ {
        Some((EventKind::NewChannel, new_channel_fields()))
    } else if name == "Hangup"@ {
        Some((EventKind::Hangup, hangup_fields()))
    } else if name == "Newstate"@ {
        Some((EventKind::Newstate, newstate_fields()))
    } else if name == "DialBegin"@ {
        Some((EventKind::DialBegin, dial_begin_fields()))
    } else if name == "DialEnd"@ {
        Some((EventKind::DialEnd, dial_end_fields()))
    } else if name == "DTMFBegin"@ {
        Some((EventKind::DtmfBegin, dtmf_begin_fields()))
    } else if name == "DTMFEnd"@ {
        Some((EventKind::DtmfEnd, dtmf_end_fields()))
    } else if name == "FullyBooted"@ {
        Some((EventKind::FullyBooted, fully_booted_fields()))
    } else if name == "PeerStatus"@ {
        Some((EventKind::PeerStatus, peer_status_fields()))
    } else if name == "BridgeCreate"@ {
        Some((EventKind::BridgeCreate, bridge_create_fields()))
    } else if name == "BridgeDestroy"@ {
        Some((EventKind::BridgeDestroy, bridge_destroy_fields()))
    } else if name == "BridgeEnter"@ {
        Some((EventKind::BridgeEnter, bridge_enter_fields()))
    } else if name == "BridgeLeave"@ {
        Some((EventKind::BridgeLeave, bridge_leave_fields()))
    } else if name == "VarSet"@ {
        Some((EventKind::VarSet, var_set_fields()))
    } else if name == "Hold"@ {
        Some((EventKind::Hold, hold_fields()))
    } else {
        None
    }
}

/// Known events, part 2.
pub open spec fn schema_02(name: Seq<char>) -> Option<(EventKind, Fields)> {
    if name == "Unhold"@ {
        Some((EventKind::Unhold, unhold_fields()))
    } else if name == "HangupRequest"@ {
        Some((EventKind::HangupRequest, hangup_request_fields()))
    } else if name == "SoftHangupRequest"@ {
        Some((EventKind::SoftHangupRequest, soft_hangup_request_fields()))
    } else if name == "NewExten"@ {
        Some((EventKind::NewExten, new_exten_fields()))
    } else if name == "NewCallerid"@ {
        Some((EventKind::NewCallerid, new_callerid_fields()))
    } else if name == "NewConnectedLine"@ {
        Some((EventKind::NewConnectedLine, new_connected_line_fields()))
    } else if name == "NewAccountCode"@ {
        Some((EventKind::NewAccountCode, new_account_code_fields()))
    } else if name == "Rename"@ {
        Some((EventKind::Rename, rename_fields()))
    } else if name == "OriginateResponse"@ {
        Some((EventKind::OriginateResponse, originate_response_fields()))
    } else if name == "DialState"@ {
        Some((EventKind::DialState, dial_state_fields()))
    } else if name == "Flash"@ {
        Some((EventKind::Flash, flash_fields()))
    } else if name == "Wink"@ {
        Some((EventKind::Wink, wink_fields()))
    } else if name == "UserEvent"@ {
        Some((EventKind::UserEvent, user_event_fields()))
    } else if name == "AttendedTransfer"@ {
        Some((EventKind::AttendedTransfer, attended_transfer_fields()))
    } else if name == "BlindTransfer"@ {
        Some((EventKind::BlindTransfer, blind_transfer_fields()))
    } else {
        None
    }
}

/// Known events, part 3.
pub open spec fn schema_03(name: Seq<char>) -> Option<(EventKind, Fields)> {
    if name == "BridgeMerge"@ {
        Some((EventKind::BridgeMerge, bridge_merge_fields()))
    } else if name == "BridgeInfoChannel"@ {
        Some((EventKind::BridgeInfoChannel, bridge_info_channel_fields()))
    } else if name == "BridgeInfoComplete"@ {
        Some((EventKind::BridgeInfoComplete, bridge_info_complete_fields()))
    } else if name == "BridgeVideoSourceUpdate"@ {
        Some((EventKind::BridgeVideoSourceUpdate, bridge_video_source_update_fields()))
    } else if name == "LocalBridge"@ {
        Some((EventKind::LocalBridge, local_bridge_fields()))
    } else if name == "LocalOptimizationBegin"@ {
        Some((EventKind::LocalOptimizationBegin, local_optimization_begin_fields()))
    } else if name == "LocalOptimizationEnd"@ {
        Some((EventKind::LocalOptimizationEnd, local_optimization_end_fields()))
    } else if name == "Cdr"@ {
        Some((EventKind::Cdr, cdr_fields()))
    } else if name == "CEL"@ {
        Some((EventKind::Cel, cel_fields()))
    } else if name == "QueueCallerAbandon"@ {
        Some((EventKind::QueueCallerAbandon, queue_caller_abandon_fields()))
    } else if name == "QueueCallerJoin"@ {
        Some((EventKind::QueueCallerJoin, queue_caller_join_fields()))
    } else if name == "QueueCallerLeave"@ {
        Some((EventKind::QueueCallerLeave, queue_caller_leave_fields()))
    } else if name == "QueueMemberAdded"@ {
        Some((EventKind::QueueMemberAdded, queue_member_added_fields()))
    } else if name == "QueueMemberRemoved"@ {
        Some((EventKind::QueueMemberRemoved, queue_member_removed_fields()))
    } else if name == "QueueMemberPause"@ {
        Some((EventKind::QueueMemberPause, queue_member_pause_fields()))
    } else {
        None
    }
}

/// Known events, part 4.
pub open spec fn schema_04(name: Seq<char>) -> Option<(EventKind, Fields)> {
    if name == "QueueMemberStatus"@ {
        Some((EventKind::QueueMemberStatus, queue_member_status_fields()))
    } else if name == "QueueMemberPenalty"@ {
        Some((EventKind::QueueMemberPenalty, queue_member_penalty_fields()))
    } else if name == "QueueMemberRinginuse"@ {
        Some((EventKind::QueueMemberRinginuse, queue_member_ringinuse_fields()))
    } else if name == "QueueParams"@ {
        Some((EventKind::QueueParams, queue_params_fields()))
    } else if name == "QueueEntry"@ {
        Some((EventKind::QueueEntry, queue_entry_fields()))
    } else if name == "AgentCalled"@ {
        Some((EventKind::AgentCalled, agent_called_fields()))
    } else if name == "AgentConnect"@ {
        Some((EventKind::AgentConnect, agent_connect_fields()))
    } else if name == "AgentComplete"@ {
        Some((EventKind::AgentComplete, agent_complete_fields()))
    } else if name == "AgentDump"@ {
        Some((EventKind::AgentDump, agent_dump_fields()))
    } else if name == "AgentLogin"@ {
        Some((EventKind::AgentLogin, agent_login_fields()))
    } else if name == "AgentLogoff"@ {
        Some((EventKind::AgentLogoff, agent_logoff_fields()))
    } else if name == "AgentRingNoAnswer"@ {
        Some((EventKind::AgentRingNoAnswer, agent_ring_no_answer_fields()))
    } else if name == "Agents"@ {
        Some((EventKind::Agents, agents_fields()))
    } else if name == "AgentsComplete"@ {
        Some((EventKind::AgentsComplete, agents_complete_fields()))
    } else if name == "ConfbridgeStart"@ {
        Some((EventKind::ConfbridgeStart, confbridge_start_fields()))
    } else {
        None
    }
}

/// Known events, part 5.
pub open spec fn schema_05(name: Seq<char>) -> Option<(EventKind, Fields)> {
    if name == "ConfbridgeEnd"@ {
        Some((EventKind::ConfbridgeEnd, confbridge_end_fields()))
    } else if name == "ConfbridgeJoin"@ {
        Some((EventKind::ConfbridgeJoin, confbridge_join_fields()))
    } else if name == "ConfbridgeLeave"@ {
        Some((EventKind::ConfbridgeLeave, confbridge_leave_fields()))
    } else if name == "ConfbridgeList"@ {
        Some((EventKind::ConfbridgeList, confbridge_list_fields()))
    } else if name == "ConfbridgeMute"@ {
        Some((EventKind::ConfbridgeMute, confbridge_mute_fields()))
    } else if name == "ConfbridgeUnmute"@ {
        Some((EventKind::ConfbridgeUnmute, confbridge_unmute_fields()))
    } else if name == "ConfbridgeTalking"@ {
        Some((EventKind::ConfbridgeTalking, confbridge_talking_fields()))
    } else if name == "ConfbridgeRecord"@ {
        Some((EventKind::ConfbridgeRecord, confbridge_record_fields()))
    } else if name == "ConfbridgeStopRecord"@ {
        Some((EventKind::ConfbridgeStopRecord, confbridge_stop_record_fields()))
    } else if name == "ConfbridgeListRooms"@ {
        Some((EventKind::ConfbridgeListRooms, confbridge_list_rooms_fields()))
    } else if name == "MixMonitorStart"@ {
        Some((EventKind::MixMonitorStart, mix_monitor_start_fields()))
    } else if name == "MixMonitorStop"@ {
        Some((EventKind::MixMonitorStop, mix_monitor_stop_fields()))
    } else if name == "MixMonitorMute"@ {
        Some((EventKind::MixMonitorMute, mix_monitor_mute_fields()))
    } else if name == "MusicOnHoldStart"@ {
        Some((EventKind::MusicOnHoldStart, music_on_hold_start_fields()))
    } else if name == "MusicOnHoldStop"@ {
        Some((EventKind::MusicOnHoldStop, music_on_hold_stop_fields()))
    } else {
        None
    }
}

/// Known events, part 6.
pub open spec fn schema_06(name: Seq<char>) -> Option<(EventKind, Fields)> {
    if name == "ParkedCall"@ {
        Some((EventKind::ParkedCall, parked_call_fields()))
    } else if name == "ParkedCallGiveUp"@ {
        Some((EventKind::ParkedCallGiveUp, parked_call_give_up_fields()))
    } else if name == "ParkedCallTimeOut"@ {
        Some((EventKind::ParkedCallTimeOut, parked_call_time_out_fields()))
    } else if name == "ParkedCallSwap"@ {
        Some((EventKind::ParkedCallSwap, parked_call_swap_fields()))
    } else if name == "UnParkedCall"@ {
        Some((EventKind::UnParkedCall, un_parked_call_fields()))
    } else if name == "Pickup"@ {
        Some((EventKind::Pickup, pickup_fields()))
    } else if name == "ChanSpyStart"@ {
        Some((EventKind::ChanSpyStart, chan_spy_start_fields()))
    } else if name == "ChanSpyStop"@ {
        Some((EventKind::ChanSpyStop, chan_spy_stop_fields()))
    } else if name == "ChannelTalkingStart"@ {
        Some((EventKind::ChannelTalkingStart, channel_talking_start_fields()))
    } else if name == "ChannelTalkingStop"@ {
        Some((EventKind::ChannelTalkingStop, channel_talking_stop_fields()))
    } else if name == "DeviceStateChange"@ {
        Some((EventKind::DeviceStateChange, device_state_change_fields()))
    } else if name == "ExtensionStatus"@ {
        Some((EventKind::ExtensionStatus, extension_status_fields()))
    } else if name == "PresenceStateChange"@ {
        Some((EventKind::PresenceStateChange, presence_state_change_fields()))
    } else if name == "PresenceStatus"@ {
        Some((EventKind::PresenceStatus, presence_status_fields()))
    } else if name == "ContactStatus"@ {
        Some((EventKind::ContactStatus, contact_status_fields()))
    } else {
        None
    }
}

/// Known events, part 7.
pub open spec fn schema_07(name: Seq<char>) -> Option<(EventKind, Fields)> {
    if name == "Registry"@ {
        Some((EventKind::Registry, registry_fields()))
    } else if name == "MessageWaiting"@ {
        Some((EventKind::MessageWaiting, message_waiting_fields()))
    } else if name == "VoicemailPasswordChange"@ {
        Some((EventKind::VoicemailPasswordChange, voicemail_password_change_fields()))
    } else if name == "RTCPReceived"@ {
        Some((EventKind::RTCPReceived, rtcp_received_fields()))
    } else if name == "RTCPSent"@ {
        Some((EventKind::RTCPSent, rtcp_sent_fields()))
    } else if name == "FailedACL"@ {
        Some((EventKind::FailedACL, failed_acl_fields()))
    } else if name == "InvalidAccountID"@ {
        Some((EventKind::InvalidAccountID, invalid_account_id_fields()))
    } else if name == "InvalidPassword"@ {
        Some((EventKind::InvalidPassword, invalid_password_fields()))
    } else if name == "ChallengeResponseFailed"@ {
        Some((EventKind::ChallengeResponseFailed, challenge_response_failed_fields()))
    } else if name == "ChallengeSent"@ {
        Some((EventKind::ChallengeSent, challenge_sent_fields()))
    } else if name == "SuccessfulAuth"@ {
        Some((EventKind::SuccessfulAuth, successful_auth_fields()))
    } else if name == "SessionLimit"@ {
        Some((EventKind::SessionLimit, session_limit_fields()))
    } else if name == "UnexpectedAddress"@ {
        Some((EventKind::UnexpectedAddress, unexpected_address_fields()))
    } else if name == "RequestBadFormat"@ {
        Some((EventKind::RequestBadFormat, request_bad_format_fields()))
    } else if name == "RequestNotAllowed"@ {
        Some((EventKind::RequestNotAllowed, request_not_allowed_fields()))
    } else {
        None
    }
}

/// Known events, part 8.
pub open spec fn schema_08(name: Seq<char>) -> Option<(EventKind, Fields)> {
    if name == "RequestNotSupported"@ {
        Some((EventKind::RequestNotSupported, request_not_supported_fields()))
    } else if name == "InvalidTransport"@ {
        Some((EventKind::InvalidTransport, invalid_transport_fields()))
    } else if name == "AuthMethodNotAllowed"@ {
        Some((EventKind::AuthMethodNotAllowed, auth_method_not_allowed_fields()))
    } else if name == "Shutdown"@ {
        Some((EventKind::Shutdown, shutdown_fields()))
    } else if name == "Reload"@ {
        Some((EventKind::Reload, reload_fields()))
    } else if name == "Load"@ {
        Some((EventKind::Load, load_fields()))
    } else if name == "Unload"@ {
        Some((EventKind::Unload, unload_fields()))
    } else if name == "LogChannel"@ {
        Some((EventKind::LogChannel, log_channel_fields()))
    } else if name == "LoadAverageLimit"@ {
        Some((EventKind::LoadAverageLimit, load_average_limit_fields()))
    } else if name == "MemoryLimit"@ {
        Some((EventKind::MemoryLimit, memory_limit_fields()))
    } else if name == "AsyncAGIStart"@ {
        Some((EventKind::AsyncAGIStart, async_agi_start_fields()))
    } else if name == "AsyncAGIExec"@ {
        Some((EventKind::AsyncAGIExec, async_agi_exec_fields()))
    } else if name == "AsyncAGIEnd"@ {
        Some((EventKind::AsyncAGIEnd, async_agi_end_fields()))
    } else if name == "AGIExecStart"@ {
        Some((EventKind::AGIExecStart, agi_exec_start_fields()))
    } else if name == "AGIExecEnd"@ {
        Some((EventKind::AGIExecEnd, agi_exec_end_fields()))
    } else {
        None
    }
}

/// Known events, part 9.
pub open spec fn schema_09(name: Seq<char>) -> Option<(EventKind, Fields)> {
    if name == "HangupHandlerPush"@ {
        Some((EventKind::HangupHandlerPush, hangup_handler_push_fields()))
    } else if name == "HangupHandlerPop"@ {
        Some((EventKind::HangupHandlerPop, hangup_handler_pop_fields()))
    } else if name == "HangupHandlerRun"@ {
        Some((EventKind::HangupHandlerRun, hangup_handler_run_fields()))
    } else if name == "Status"@ {
        Some((EventKind::Status, status_fields()))
    } else if name == "StatusComplete"@ {
        Some((EventKind::StatusComplete, status_complete_fields()))
    } else if name == "CoreShowChannel"@ {
        Some((EventKind::CoreShowChannel, core_show_channel_fields()))
    } else if name == "CoreShowChannelsComplete"@ {
        Some((EventKind::CoreShowChannelsComplete, core_show_channels_complete_fields()))
    } else if name == "CoreShowChannelMapComplete"@ {
        Some((EventKind::CoreShowChannelMapComplete, core_show_channel_map_complete_fields()))
    } else if name == "DAHDIChannel"@ {
        Some((EventKind::DAHDIChannel, dahdi_channel_fields()))
    } else if name == "Alarm"@ {
        Some((EventKind::Alarm, alarm_fields()))
    } else if name == "AlarmClear"@ {
        Some((EventKind::AlarmClear, alarm_clear_fields()))
    } else if name == "SpanAlarm"@ {
        Some((EventKind::SpanAlarm, span_alarm_fields()))
    } else if name == "SpanAlarmClear"@ {
        Some((EventKind::SpanAlarmClear, span_alarm_clear_fields()))
    } else if name == "AOC-D"@ {
        Some((EventKind::AocD, aoc_d_fields()))
    } else if name == "AOC-E"@ {
        Some((EventKind::AocE, aoc_e_fields()))
    } else {
        None
    }
}

/// Known events, part 10.
pub open spec fn schema_10(name: Seq<char>) -> Option<(EventKind, Fields)> {
    if name == "AOC-S"@ {
        Some((EventKind::AocS, aoc_s_fields()))
    } else if name == "FAXStatus"@ {
        Some((EventKind::FAXStatus, fax_status_fields()))
    } else if name == "ReceiveFAX"@ {
        Some((EventKind::ReceiveFAX, receive_fax_fields()))
    } else if name == "SendFAX"@ {
        Some((EventKind::SendFAX, send_fax_fields()))
    } else if name == "MeetmeJoin"@ {
        Some((EventKind::MeetmeJoin, meetme_join_fields()))
    } else if name == "MeetmeLeave"@ {
        Some((EventKind::MeetmeLeave, meetme_leave_fields()))
    } else if name == "MeetmeEnd"@ {
        Some((EventKind::MeetmeEnd, meetme_end_fields()))
    } else if name == "MeetmeMute"@ {
        Some((EventKind::MeetmeMute, meetme_mute_fields()))
    } else if name == "MeetmeTalking"@ {
        Some((EventKind::MeetmeTalking, meetme_talking_fields()))
    } else if name == "MeetmeTalkRequest"@ {
        Some((EventKind::MeetmeTalkRequest, meetme_talk_request_fields()))
    } else if name == "MeetmeList"@ {
        Some((EventKind::MeetmeList, meetme_list_fields()))
    } else if name == "MeetmeListRooms"@ {
        Some((EventKind::MeetmeListRooms, meetme_list_rooms_fields()))
    } else if name == "DeviceStateListComplete"@ {
        Some((EventKind::DeviceStateListComplete, device_state_list_complete_fields()))
    } else if name == "ExtensionStateListComplete"@ {
        Some((EventKind::ExtensionStateListComplete, extension_state_list_complete_fields()))
    } else if name == "PresenceStateListComplete"@ {
        Some((EventKind::PresenceStateListComplete, presence_state_list_complete_fields()))
    } else {
        None
    }
}

/// Known events, part 11.
pub open spec fn schema_11(name: Seq<char>) -> Option<(EventKind, Fields)> {
    if name == "AorDetail"@ {
        Some((EventKind::AorDetail, aor_detail_fields()))
    } else if name == "AorList"@ {
        Some((EventKind::AorList, aor_list_fields()))
    } else if name == "AorListComplete"@ {
        Some((EventKind::AorListComplete, aor_list_complete_fields()))
    } else if name == "AuthDetail"@ {
        Some((EventKind::AuthDetail, auth_detail_fields()))
    } else if name == "AuthList"@ {
        Some((EventKind::AuthList, auth_list_fields()))
    } else if name == "AuthListComplete"@ {
        Some((EventKind::AuthListComplete, auth_list_complete_fields()))
    } else if name == "ContactList"@ {
        Some((EventKind::ContactList, contact_list_fields()))
    } else if name == "ContactListComplete"@ {
        Some((EventKind::ContactListComplete, contact_list_complete_fields()))
    } else if name == "ContactStatusDetail"@ {
        Some((EventKind::ContactStatusDetail, contact_status_detail_fields()))
    } else if name == "EndpointDetail"@ {
        Some((EventKind::EndpointDetail, endpoint_detail_fields()))
    } else if name == "EndpointDetailComplete"@ {
        Some((EventKind::EndpointDetailComplete, endpoint_detail_complete_fields()))
    } else if name == "EndpointList"@ {
        Some((EventKind::EndpointList, endpoint_list_fields()))
    } else if name == "EndpointListComplete"@ {
        Some((EventKind::EndpointListComplete, endpoint_list_complete_fields()))
    } else if name == "IdentifyDetail"@ {
        Some((EventKind::IdentifyDetail, identify_detail_fields()))
    } else if name == "TransportDetail"@ {
        Some((EventKind::TransportDetail, transport_detail_fields()))
    } else {
        None
    }
}

/// Known events, part 12.
pub open spec fn schema_12(name: Seq<char>) -> Option<(EventKind, Fields)> {
    if name == "ResourceListDetail"@ {
        Some((EventKind::ResourceListDetail, resource_list_detail_fields()))
    } else if name == "InboundRegistrationDetail"@ {
        Some((EventKind::InboundRegistrationDetail, inbound_registration_detail_fields()))
    } else if name == "OutboundRegistrationDetail"@ {
        Some((EventKind::OutboundRegistrationDetail, outbound_registration_detail_fields()))
    } else if name == "InboundSubscriptionDetail"@ {
        Some((EventKind::InboundSubscriptionDetail, inbound_subscription_detail_fields()))
    } else if name == "OutboundSubscriptionDetail"@ {
        Some((EventKind::OutboundSubscriptionDetail, outbound_subscription_detail_fields()))
    } else if name == "MWIGet"@ {
        Some((EventKind::MWIGet, mwi_get_fields()))
    } else if name == "MWIGetComplete"@ {
        Some((EventKind::MWIGetComplete, mwi_get_complete_fields()))
    } else if name == "MiniVoiceMail"@ {
        Some((EventKind::MiniVoiceMail, mini_voice_mail_fields()))
    } else if name == "FAXSession"@ {
        Some((EventKind::FAXSession, fax_session_fields()))
    } else if name == "FAXSessionsEntry"@ {
        Some((EventKind::FAXSessionsEntry, fax_sessions_entry_fields()))
    } else if name == "FAXSessionsComplete"@ {
        Some((EventKind::FAXSessionsComplete, fax_sessions_complete_fields()))
    } else if name == "FAXStats"@ {
        Some((EventKind::FAXStats, fax_stats_fields()))
    } else if name == "DNDState"@ {
        Some((EventKind::DNDState, dnd_state_fields()))
    } else if name == "DeadlockStart"@ {
        Some((EventKind::DeadlockStart, deadlock_start_fields()))
    } else if name == "MCID"@ {
        Some((EventKind::MCID, mcid_fields()))
    } else {
        None
    }
}

/// The names in part 1 of the table are the names of their kinds.
proof fn lemma_schema_01_names(name: Seq<char>)
    ensures
        schema_01(name) matches Some((k, fs)) ==> kind_name(k) == name && k != EventKind::Malformed && k != EventKind::Unknown
            && fs == kind_fields(k),
{
}

/// The names in part 2 of the table are the names of their kinds.
proof fn lemma_schema_02_names(name: Seq<char>)
    ensures
        schema_02(name) matches Some((k, fs)) ==> kind_name(k) == name && k != EventKind::Malformed && k != EventKind::Unknown
            && fs == kind_fields(k),
{
}

/// The names in part 3 of the table are the names of their kinds.
proof fn lemma_schema_03_names(name: Seq<char>)
    ensures
        schema_03(name) matches Some((k, fs)) ==> kind_name(k) == name && k != EventKind::Malformed && k != EventKind::Unknown
            && fs == kind_fields(k),
{
}

/// The names in part 4 of the table are the names of their kinds.
proof fn lemma_schema_04_names(name: Seq<char>)
    ensures
        schema_04(name) matches Some((k, fs)) ==> kind_name(k) == name && k != EventKind::Malformed && k != EventKind::Unknown
            && fs == kind_fields(k),
{
}

/// The names in part 5 of the table are the names of their kinds.
proof fn lemma_schema_05_names(name: Seq<char>)
    ensures
        schema_05(name) matches Some((k, fs)) ==> kind_name(k) == name && k != EventKind::Malformed && k != EventKind::Unknown
            && fs == kind_fields(k),
{
}

/// The names in part 6 of the table are the names of their kinds.
proof fn lemma_schema_06_names(name: Seq<char>)
    ensures
        schema_06(name) matches Some((k, fs)) ==> kind_name(k) == name && k != EventKind::Malformed && k != EventKind::Unknown
            && fs == kind_fields(k),
{
}

/// The names in part 7 of the table are the names of their kinds.
proof fn lemma_schema_07_names(name: Seq<char>)
    ensures
        schema_07(name) matches Some((k, fs)) ==> kind_name(k) == name && k != EventKind::Malformed && k != EventKind::Unknown
            && fs == kind_fields(k),
{
}

/// The names in part 8 of the table are the names of their kinds.
proof fn lemma_schema_08_names(name: Seq<char>)
    ensures
        schema_08(name) matches Some((k, fs)) ==> kind_name(k) == name && k != EventKind::Malformed && k != EventKind::Unknown
            && fs == kind_fields(k),
{
}

/// The names in part 9 of the table are the names of their kinds.
proof fn lemma_schema_09_names(name: Seq<char>)
    ensures
        schema_09(name) matches Some((k, fs)) ==> kind_name(k) == name && k != EventKind::Malformed && k != EventKind::Unknown
            && fs == kind_fields(k),
{
}

/// The names in part 10 of the table are the names of their kinds.
proof fn lemma_schema_10_names(name: Seq<char>)
    ensures
        schema_10(name) matches Some((k, fs)) ==> kind_name(k) == name && k != EventKind::Malformed && k != EventKind::Unknown
            && fs == kind_fields(k),
{
}

/// The names in part 11 of the table are the names of their kinds.
proof fn lemma_schema_11_names(name: Seq<char>)
    ensures
        schema_11(name) matches Some((k, fs)) ==> kind_name(k) == name && k != EventKind::Malformed && k != EventKind::Unknown
            && fs == kind_fields(k),
{
}

/// The names in part 12 of the table are the names of their kinds.
proof fn lemma_schema_12_names(name: Seq<char>)
    ensures
        schema_12(name) matches Some((k, fs)) ==> kind_name(k) == name && k != EventKind::Malformed && k != EventKind::Unknown
            && fs == kind_fields(k),
{
}

/// The variant and fields of a known event name; `None` for other names.
pub open spec fn schema(name: Seq<char>) -> Option<(EventKind, Fields)> {
    if schema_01(name) is Some {
        schema_01(name)
    } else if schema_02(name) is Some {
        schema_02(name)
    } else if schema_03(name) is Some {
        schema_03(name)
    } else if schema_04(name) is Some {
        schema_04(name)
    } else if schema_05(name) is Some {
        schema_05(name)
    } else if schema_06(name) is Some {
        schema_06(name)
    } else if schema_07(name) is Some {
        schema_07(name)
    } else if schema_08(name) is Some {
        schema_08(name)
    } else if schema_09(name) is Some {
        schema_09(name)
    } else if schema_10(name) is Some {
        schema_10(name)
    } else if schema_11(name) is Some {
        schema_11(name)
    } else if schema_12(name) is Some {
        schema_12(name)
    } else {
        None
    }
}

/// A known name is the name of the kind it reads as.
pub proof fn lemma_schema_names(name: Seq<char>)
    ensures
        schema(name) matches Some((k, fs)) ==> kind_name(k) == name && k != EventKind::Malformed && k != EventKind::Unknown
            && fs == kind_fields(k),
{
    lemma_schema_01_names(name);
    lemma_schema_02_names(name);
    lemma_schema_03_names(name);
    lemma_schema_04_names(name);
    lemma_schema_05_names(name);
    lemma_schema_06_names(name);
    lemma_schema_07_names(name);
    lemma_schema_08_names(name);
    lemma_schema_09_names(name);
    lemma_schema_10_names(name);
    lemma_schema_11_names(name);
    lemma_schema_12_names(name);
}

} // verus!
