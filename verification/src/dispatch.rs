//! The command dispatcher: which packets answer a command, in which order and
//! with which field values.
//!
//! The dispatcher keeps no state and does no I/O. Every reply is a function of
//! the one command it answers.

use crate::error::RootcanalError;
use crate::packet::CommandPacket;
use crate::packet::ConfigStatus;
use crate::packet::NciPacket;
use crate::packet::NciVersion;
use crate::packet::PacketBoundaryFlag;
use crate::packet::ResetTrigger;
use crate::packet::ResetType;
use crate::packet::ResponsePacket;
use crate::packet::ResponseView;
use crate::packet::Status;
use crate::packet::spec_has_views;
use vstd::prelude::*;

verus! {

/// What the reset notification reports of the configuration: kept if the
/// command asked to keep it, reset otherwise.
pub open spec fn spec_config_status(reset_type: ResetType) -> ConfigStatus {
    if reset_type == ResetType::KeepConfig {
        ConfigStatus::ConfigKept
    } else {
        ConfigStatus::ConfigReset
    }
}

/// The response to a reset command: group 0, complete, status OK.
pub open spec fn spec_reset_response() -> ResponseView {
    ResponseView::ResetResponse {
        gid: 0,
        pbf: PacketBoundaryFlag::CompleteOrFinal,
        status: Status::Success,
    }
}

/// The notification that follows the response to a reset command. It names the
/// reset command as the trigger, reports what became of the configuration,
/// announces version 2.0, and carries manufacturer 0 with no
/// manufacturer-specific information.
pub open spec fn spec_reset_notification(reset_type: ResetType) -> ResponseView {
    ResponseView::ResetNotification {
        gid: 0,
        pbf: PacketBoundaryFlag::CompleteOrFinal,
        trigger: ResetTrigger::ResetCommand,
        config_status: spec_config_status(reset_type),
        nci_version: NciVersion::Version20,
        manufacturer_id: 0,
        mfsi: Seq::empty(),
    }
}

/// The response to an initialisation command. It claims no feature: five zero
/// bytes of feature flags, no logical connection, no routing table, payloads
/// of at most 255 bytes, no credit, RF frames of at most 64 bytes, and one RF
/// interface whose two bytes are zero.
pub open spec fn spec_init_response() -> ResponseView {
    ResponseView::InitResponse {
        gid: 0,
        pbf: PacketBoundaryFlag::CompleteOrFinal,
        status: Status::Success,
        nfcc_features: seq![0u8, 0u8, 0u8, 0u8, 0u8],
        max_log_conns: 0,
        max_rout_tbls_size: 0,
        max_ctrl_payload: 255,
        max_data_payload: 255,
        num_of_credits: 0,
        max_nfcv_rf_frame_sz: 64,
        rf_interface: seq![seq![0u8, 0u8]],
    }
}

/// The replies that a decoded packet is owed, in the order in which they are
/// sent, or the reason for which it gets none.
pub open spec fn spec_command_response(cmd: NciPacket) -> Result<
    Seq<ResponseView>,
    RootcanalError,
> {
    match cmd {
        NciPacket::Command(CommandPacket::Reset { reset_type }) => Ok(
            seq![spec_reset_response(), spec_reset_notification(reset_type)],
        ),
        NciPacket::Command(CommandPacket::Init) => Ok(seq![spec_init_response()]),
        NciPacket::Command(CommandPacket::Unsupported) => Err(RootcanalError::UnsupportedCommand),
        NciPacket::Other => Err(RootcanalError::InvalidPacket),
    }
}

/// The replies to what the packet codec made of a command frame, where `None`
/// stands for bytes that did not decode at all.
pub open spec fn spec_dispatch(decoded: Option<NciPacket>) -> Result<
    Seq<ResponseView>,
    RootcanalError,
> {
    match decoded {
        Some(cmd) => spec_command_response(cmd),
        None => Err(RootcanalError::InvalidPacket),
    }
}

/// Builds the replies to one decoded packet.
///
/// A reset command is answered by a reset response and then a reset
/// notification; an initialisation command by one initialisation response. A
/// command of any other kind is unsupported, and a packet that is no command
/// is invalid: neither gets a reply.
pub fn command_response(cmd: NciPacket) -> (replies: Result<Vec<ResponsePacket>, RootcanalError>)
    ensures
        match replies {
            Ok(packets) => spec_command_response(cmd) matches Ok(views) && spec_has_views(
                packets@,
                views,
            ),
            Err(e) => spec_command_response(cmd) == Err::<Seq<ResponseView>, RootcanalError>(e),
        },
{
    let pbf = PacketBoundaryFlag::CompleteOrFinal;
    let gid: u8 = 0;
    match cmd {
        NciPacket::Command(CommandPacket::Reset { reset_type }) => {
            let config_status = match reset_type {
                ResetType::KeepConfig => ConfigStatus::ConfigKept,
                ResetType::ResetConfig => ConfigStatus::ConfigReset,
            };
            let mut packets: Vec<ResponsePacket> = Vec::new();
            packets.push(ResponsePacket::ResetResponse { gid, pbf, status: Status::Success });
            packets.push(
                ResponsePacket::ResetNotification {
                    gid,
                    pbf,
                    trigger: ResetTrigger::ResetCommand,
                    config_status,
                    nci_version: NciVersion::Version20,
                    manufacturer_id: 0,
                    mfsi: Vec::new(),
                },
            );
            Ok(packets)
        },
        NciPacket::Command(CommandPacket::Init) => {
            let nfcc_features: [u8; 5] = [0u8; 5];
            let mut rf_interface: Vec<[u8; 2]> = Vec::new();
            rf_interface.push([0u8; 2]);
            assert(nfcc_features@ =~= seq![0u8, 0u8, 0u8, 0u8, 0u8]);
            assert(rf_interface@[0]@ =~= seq![0u8, 0u8]);
            assert(rf_interface@.map_values(|entry: [u8; 2]| entry@) =~= seq![seq![0u8, 0u8]]);
            let mut packets: Vec<ResponsePacket> = Vec::new();
            packets.push(
                ResponsePacket::InitResponse {
                    gid,
                    pbf,
                    status: Status::Success,
                    nfcc_features,
                    max_log_conns: 0,
                    max_rout_tbls_size: 0,
                    max_ctrl_payload: 255,
                    max_data_payload: 255,
                    num_of_credits: 0,
                    max_nfcv_rf_frame_sz: 64,
                    rf_interface,
                },
            );
            Ok(packets)
        },
        NciPacket::Command(CommandPacket::Unsupported) => Err(RootcanalError::UnsupportedCommand),
        NciPacket::Other => Err(RootcanalError::InvalidPacket),
    }
}

/// Builds the replies to what the packet codec made of a command frame. Bytes
/// that did not decode, given as `None`, are an invalid packet; a decoded
/// packet is answered as `command_response` says.
pub fn dispatch(decoded: Option<NciPacket>) -> (replies: Result<Vec<ResponsePacket>, RootcanalError>)
    ensures
        match replies {
            Ok(packets) => spec_dispatch(decoded) matches Ok(views) && spec_has_views(
                packets@,
                views,
            ),
            Err(e) => spec_dispatch(decoded) == Err::<Seq<ResponseView>, RootcanalError>(e),
        },
{
    match decoded {
        Some(cmd) => command_response(cmd),
        None => Err(RootcanalError::InvalidPacket),
    }
}

/// A command of a kind other than reset and initialisation is never answered:
/// it is exactly these commands that are refused as unsupported, and whatever
/// is refused, for whichever reason, has no reply.
pub proof fn lemma_unsupported_command_gets_no_reply(cmd: NciPacket)
    ensures
        spec_command_response(cmd) == Err::<Seq<ResponseView>, RootcanalError>(
            RootcanalError::UnsupportedCommand,
        ) <==> cmd == NciPacket::Command(CommandPacket::Unsupported),
        spec_command_response(cmd) is Ok <==> (cmd matches NciPacket::Command(c) && (c
            is Reset || c is Init)),
        !RootcanalError::UnsupportedCommand.spec_is_graceful(),
{
}

} // verus!
