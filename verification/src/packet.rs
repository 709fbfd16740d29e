//! The structured packets that pass between the frame codec and the command
//! dispatcher.
//!
//! A packet codec outside this crate turns the bytes of a command frame into a
//! [`NciPacket`] and turns each [`ResponsePacket`] into bytes. The types here
//! hold, as plain values, what the dispatcher reads from a command and what it
//! sets in a reply.

use vstd::prelude::*;

verus! {

/// Whether a packet is whole, or one segment of a longer message.
#[derive(Clone, Copy, Debug, PartialEq, Eq, Structural)]
pub enum PacketBoundaryFlag {
    /// The packet is complete, or is the last segment of a message.
    CompleteOrFinal,
    /// More segments of the same message follow.
    Incomplete,
}

/// The status code of a response.
#[derive(Clone, Copy, Debug, PartialEq, Eq, Structural)]
pub enum Status {
    /// The command was carried out: the status that the interface calls OK.
    Success,
    /// The command was refused.
    Rejected,
    /// The command failed.
    Failed,
}

/// What a reset command asks to be done with the configuration.
#[derive(Clone, Copy, Debug, PartialEq, Eq, Structural)]
pub enum ResetType {
    /// Keep the configuration across the reset.
    KeepConfig,
    /// Return the configuration to its defaults.
    ResetConfig,
}

/// What caused a reset.
#[derive(Clone, Copy, Debug, PartialEq, Eq, Structural)]
pub enum ResetTrigger {
    /// The controller met an error from which it could not recover.
    UnrecoverableError,
    /// The controller was powered on.
    PowerOn,
    /// The host sent a reset command.
    ResetCommand,
}

/// What a reset did to the configuration.
#[derive(Clone, Copy, Debug, PartialEq, Eq, Structural)]
pub enum ConfigStatus {
    /// The configuration was kept.
    ConfigKept,
    /// The configuration was reset.
    ConfigReset,
}

/// The version of the controller interface that the controller speaks.
#[derive(Clone, Copy, Debug, PartialEq, Eq, Structural)]
pub enum NciVersion {
    /// Version 1.0.
    Version10,
    /// Version 1.1.
    Version11,
    /// Version 2.0.
    Version20,
}

/// A decoded command, by kind, with the fields of that kind.
#[derive(Clone, Copy, Debug, PartialEq, Eq, Structural)]
pub enum CommandPacket {
    /// A reset of the controller.
    Reset { reset_type: ResetType },
    /// The initialisation of the controller. Nothing that it carries bears on
    /// the reply.
    Init,
    /// A command of any other kind.
    Unsupported,
}

/// What the packet codec made of a frame.
#[derive(Clone, Copy, Debug, PartialEq, Eq, Structural)]
pub enum NciPacket {
    /// The frame holds a command.
    Command(CommandPacket),
    /// The frame decoded, but not as a command.
    Other,
}

/// A packet that the controller sends: a response to a command, or the
/// notification that follows one.
#[derive(Debug, PartialEq, Eq)]
pub enum ResponsePacket {
    /// The response to a reset command.
    ResetResponse { gid: u8, pbf: PacketBoundaryFlag, status: Status },
    /// The notification that a reset has been carried out.
    ResetNotification {
        gid: u8,
        pbf: PacketBoundaryFlag,
        trigger: ResetTrigger,
        config_status: ConfigStatus,
        nci_version: NciVersion,
        manufacturer_id: u8,
        /// Manufacturer-specific information.
        mfsi: Vec<u8>,
    },
    /// The response to an initialisation command: what the controller can do.
    InitResponse {
        gid: u8,
        pbf: PacketBoundaryFlag,
        status: Status,
        /// The feature flags, as the five bytes of their encoding.
        nfcc_features: [u8; 5],
        max_log_conns: u8,
        max_rout_tbls_size: u16,
        max_ctrl_payload: u8,
        max_data_payload: u8,
        num_of_credits: u8,
        max_nfcv_rf_frame_sz: u16,
        /// The supported RF interfaces, each as the two bytes of its encoding.
        rf_interface: Vec<[u8; 2]>,
    },
}

/// A [`ResponsePacket`] as a mathematical value: its byte strings are
/// sequences.
pub ghost enum ResponseView {
    ResetResponse { gid: u8, pbf: PacketBoundaryFlag, status: Status },
    ResetNotification {
        gid: u8,
        pbf: PacketBoundaryFlag,
        trigger: ResetTrigger,
        config_status: ConfigStatus,
        nci_version: NciVersion,
        manufacturer_id: u8,
        mfsi: Seq<u8>,
    },
    InitResponse {
        gid: u8,
        pbf: PacketBoundaryFlag,
        status: Status,
        nfcc_features: Seq<u8>,
        max_log_conns: u8,
        max_rout_tbls_size: u16,
        max_ctrl_payload: u8,
        max_data_payload: u8,
        num_of_credits: u8,
        max_nfcv_rf_frame_sz: u16,
        rf_interface: Seq<Seq<u8>>,
    },
}

impl View for ResponsePacket {
    type V = ResponseView;

    open spec fn view(&self) -> ResponseView {
        match *self {
            ResponsePacket::ResetResponse { gid, pbf, status } => ResponseView::ResetResponse {
                gid,
                pbf,
                status,
            },
            ResponsePacket::ResetNotification {
                gid,
                pbf,
                trigger,
                config_status,
                nci_version,
                manufacturer_id,
                mfsi,
            } => ResponseView::ResetNotification {
                gid,
                pbf,
                trigger,
                config_status,
                nci_version,
                manufacturer_id,
                mfsi: mfsi@,
            },
            ResponsePacket::InitResponse {
                gid,
                pbf,
                status,
                nfcc_features,
                max_log_conns,
                max_rout_tbls_size,
                max_ctrl_payload,
                max_data_payload,
                num_of_credits,
                max_nfcv_rf_frame_sz,
                rf_interface,
            } => ResponseView::InitResponse {
                gid,
                pbf,
                status,
                nfcc_features: nfcc_features@,
                max_log_conns,
                max_rout_tbls_size,
                max_ctrl_payload,
                max_data_payload,
                num_of_credits,
                max_nfcv_rf_frame_sz,
                rf_interface: rf_interface@.map_values(|entry: [u8; 2]| entry@),
            },
        }
    }
}

/// Whether `packets` are, one by one and in the same order, the packets whose
/// views are given.
pub open spec fn spec_has_views(packets: Seq<ResponsePacket>, views: Seq<ResponseView>) -> bool {
    &&& packets.len() == views.len()
    &&& forall|i: int| 0 <= i < views.len() ==> (#[trigger] packets[i])@ == views[i]
}

} // verus!
