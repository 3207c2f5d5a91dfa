//! The Bulk-Only command loop: receive a CBW, run its SCSI command, then send
//! exactly one CSW for it before the next CBW is read. A failed CBW read is
//! followed by another read and no status.

use vstd::prelude::*;
use crate::drivers::usb_msc::device::EndpointError;
use crate::drivers::usb_msc::scsi::consts::{CSW_SIGNATURE, SCSI_READ_10};
use crate::drivers::usb_msc::scsi::{
    cbw_in_range, handle_scsi_cmd, read10_lba, scsi_step, expects, ScsiAction, ScsiCommand, ScsiEvent,
    ScsiPhase, ScsiResponse,
};
use crate::drivers::usb_msc::transport::{csw_bytes, parse_cbw_cmd, Cbw, Csw};
use crate::wire::{from_le32, u32_from_be_bytes};

verus! {

/// A 31-byte CBW whose command can be started: for READ(10), the byte
/// range `lba * 512 .. lba * 512 + dtl` must be representable in 32 bits.
pub open spec fn cbw_bytes_in_range(b: Seq<u8>) -> bool {
    let cmd = parse_cbw_cmd(b);
    cmd[0] == SCSI_READ_10 ==> read10_lba(cmd) * 512 + from_le32(b[8], b[9], b[10], b[11]) <= u32::MAX
}

/// Tag field of a CBW.
pub open spec fn cbw_tag(b: Seq<u8>) -> u32 {
    from_le32(b[4], b[5], b[6], b[7]) as u32
}

/// Where the loop stands.
pub enum LoopPhase {
    /// Waiting for the next CBW.
    AwaitCbw,
    /// Running the SCSI command of the CBW with this tag.
    Running { cmd: ScsiCommand, tag: u32 },
    /// The command finished with `resp`; its CSW is being sent.
    AwaitCsw { tag: u32, resp: ScsiResponse },
}

/// Next endpoint step of the loop.
pub enum MscStep {
    /// Read a CBW from the bulk OUT endpoint.
    ReadCbw,
    /// Send these command bytes to the host.
    SendData(Vec<u8>),
    /// Read this block of the disk into the sector buffer.
    ReadBlock(u32),
    /// Send this many bytes of the sector buffer.
    SendSector(usize),
    /// Send this CSW.
    SendCsw([u8; 13]),
}

/// The command loop.
pub struct MscLoop {
    pub phase: LoopPhase,
}

/// The CSW closing a command with tag `tag` that finished with `resp`.
pub open spec fn csw_for(tag: u32, resp: ScsiResponse) -> Seq<u8> {
    csw_bytes(CSW_SIGNATURE, tag, resp.residue, resp.status.spec_code())
}

/// Phase entered after the SCSI command `cmd` named `action`: a completed
/// command moves on to its CSW, any other action is carried out.
pub open spec fn enter_phase(cmd: ScsiCommand, action: ScsiAction, tag: u32) -> LoopPhase {
    match action {
        ScsiAction::Complete(resp) => LoopPhase::AwaitCsw { tag, resp },
        _ => LoopPhase::Running { cmd, tag },
    }
}

/// Whether `step` is the endpoint step for `action` once the loop entered
/// `phase`.
pub open spec fn step_matches(step: MscStep, action: ScsiAction, phase: LoopPhase) -> bool {
    match action {
        ScsiAction::SendData(v) => step == MscStep::SendData(v),
        ScsiAction::ReadBlock(lba) => step == MscStep::ReadBlock(lba),
        ScsiAction::SendSector(n) => step == MscStep::SendSector(n),
        ScsiAction::Complete(resp) => match phase {
            LoopPhase::AwaitCsw { tag, resp } => (step matches MscStep::SendCsw(b) && b@ == csw_for(tag, resp)),
            _ => false,
        },
    }
}

impl MscLoop {
    /// Loop invariant: a running command is well formed and not finished.
    pub open spec fn wf(&self) -> bool {
        match self.phase {
            LoopPhase::Running { cmd, .. } => cmd.wf() && cmd.phase != ScsiPhase::Finished,
            _ => true,
        }
    }

    /// Starts waiting for a CBW.
    pub fn new() -> (r: (MscLoop, MscStep))
        ensures
            r.0.phase is AwaitCbw,
            r.1 is ReadCbw,
    {
        (MscLoop { phase: LoopPhase::AwaitCbw }, MscStep::ReadCbw)
    }

    /// Whether `on_cbw` can start the command of a received CBW.
    pub fn cbw_in_range(buf: &[u8; 31]) -> (r: bool)
        ensures
            r == cbw_bytes_in_range(buf@),
    {
        let cbw = Cbw::from_bytes(buf);
        if cbw.cmd[0] != SCSI_READ_10 {
            return true;
        }
        let lba = u32_from_be_bytes(cbw.cmd[2], cbw.cmd[3], cbw.cmd[4], cbw.cmd[5]);
        lba <= (u32::MAX - cbw.dtl) / 512
    }

    fn enter(&mut self, cmd: ScsiCommand, action: ScsiAction, tag: u32) -> (step: MscStep)
        requires
            cmd.wf(),
            (action is Complete) == (cmd.phase == ScsiPhase::Finished),
        ensures
            final(self).phase == enter_phase(cmd, action, tag),
            final(self).wf(),
            step_matches(step, action, final(self).phase),
    {
        match action {
            ScsiAction::Complete(resp) => {
                self.phase = LoopPhase::AwaitCsw { tag, resp };
                MscStep::SendCsw(Csw::new(tag, resp.residue, resp.status.code()).to_bytes())
            },
            ScsiAction::SendData(v) => {
                self.phase = LoopPhase::Running { cmd, tag };
                MscStep::SendData(v)
            },
            ScsiAction::ReadBlock(lba) => {
                self.phase = LoopPhase::Running { cmd, tag };
                MscStep::ReadBlock(lba)
            },
            ScsiAction::SendSector(n) => {
                self.phase = LoopPhase::Running { cmd, tag };
                MscStep::SendSector(n)
            },
        }
    }

    /// Handles the outcome of a CBW read into `buf`: a failed read is
    /// followed by another read and no CSW; a received CBW starts its SCSI
    /// command, whose tag the CSW will echo.
    pub fn on_cbw(&mut self, read: Result<(), EndpointError>, buf: &[u8; 31]) -> (step: MscStep)
        requires
            old(self).phase is AwaitCbw,
            read is Ok ==> cbw_bytes_in_range(buf@),
        ensures
            final(self).wf(),
            read is Err ==> final(self).phase is AwaitCbw && step is ReadCbw,
            read is Ok ==> match final(self).phase {
                LoopPhase::Running { tag, .. } => tag == cbw_tag(buf@) && !(step is SendCsw),
                LoopPhase::AwaitCsw { tag, resp } => tag == cbw_tag(buf@) && (step matches MscStep::SendCsw(b)
                    && b@ == csw_for(tag, resp)),
                LoopPhase::AwaitCbw => false,
            },
    {
        if read.is_err() {
            return MscStep::ReadCbw;
        }
        let cbw = Cbw::from_bytes(buf);
        assert(cbw_in_range(cbw));
        let (cmd, action) = handle_scsi_cmd(&cbw);
        self.enter(cmd, action, cbw.tag)
    }

    /// Handles the outcome of the step the running command asked for.
    pub fn on_scsi_event(&mut self, ev: ScsiEvent) -> (step: MscStep)
        requires
            old(self).wf(),
            old(self).phase matches LoopPhase::Running { cmd, .. } && expects(cmd, ev),
        ensures
            final(self).wf(),
            match old(self).phase {
                LoopPhase::Running { cmd, tag } => {
                    let (next, action) = scsi_step(cmd, ev);
                    &&& final(self).phase == enter_phase(next, action, tag)
                    &&& step_matches(step, action, final(self).phase)
                },
                _ => false,
            },
    {
        match self.phase {
            LoopPhase::Running { cmd, tag } => {
                let (next, action) = cmd.on_event(ev);
                self.enter(next, action, tag)
            },
            _ => MscStep::ReadCbw,
        }
    }

    /// After the CSW was sent (errors are ignored), the next CBW is read.
    pub fn on_csw_sent(&mut self) -> (step: MscStep)
        requires
            old(self).phase is AwaitCsw,
        ensures
            final(self).phase is AwaitCbw,
            step is ReadCbw,
    {
        self.phase = LoopPhase::AwaitCbw;
        MscStep::ReadCbw
    }
}

} // verus!
