//! The exits of the firmware: the reasons for which it reboots instead of starting
//! the guest, and the stage that it hands over to.

use core::ops::Range;
use vstd::prelude::*;

verus! {

/// Why the firmware reboots instead of starting the guest.
#[derive(Clone, Copy, Debug, PartialEq, Eq, Structural)]
pub enum RebootReason {
    /// A malformed DICE chain was received.
    InvalidBcc,
    /// An invalid configuration was appended to the firmware.
    InvalidConfig,
    /// An unexpected internal error happened.
    InternalError,
    /// The provided device tree was invalid.
    InvalidFdt,
    /// The provided payload was invalid.
    InvalidPayload,
    /// The provided ramdisk was invalid.
    InvalidRamdisk,
    /// The payload could not be verified.
    PayloadVerificationError,
    /// The DICE layering process failed.
    SecretDerivationError,
}

impl RebootReason {
    /// The tag that is written to the console for this reason.
    pub open spec fn spec_reboot_string(self) -> Seq<char> {
        match self {
            RebootReason::InvalidBcc => "PVM_FIRMWARE_INVALID_BCC"@,
            RebootReason::InvalidConfig => "PVM_FIRMWARE_INVALID_CONFIG_DATA"@,
            RebootReason::InternalError => "PVM_FIRMWARE_INTERNAL_ERROR"@,
            RebootReason::InvalidFdt => "PVM_FIRMWARE_INVALID_FDT"@,
            RebootReason::InvalidPayload => "PVM_FIRMWARE_INVALID_PAYLOAD"@,
            RebootReason::InvalidRamdisk => "PVM_FIRMWARE_INVALID_RAMDISK"@,
            RebootReason::PayloadVerificationError => "PVM_FIRMWARE_PAYLOAD_VERIFICATION_FAILED"@,
            RebootReason::SecretDerivationError => "PVM_FIRMWARE_SECRET_DERIVATION_FAILED"@,
        }
    }

    /// The tag that is written to the console for this reason: the only thing
    /// that the outside learns of a failure.
    pub fn as_avf_reboot_string(&self) -> (r: &'static str)
        ensures
            r@ == self.spec_reboot_string(),
    {
        match self {
            Self::InvalidBcc => "PVM_FIRMWARE_INVALID_BCC",
            Self::InvalidConfig => "PVM_FIRMWARE_INVALID_CONFIG_DATA",
            Self::InternalError => "PVM_FIRMWARE_INTERNAL_ERROR",
            Self::InvalidFdt => "PVM_FIRMWARE_INVALID_FDT",
            Self::InvalidPayload => "PVM_FIRMWARE_INVALID_PAYLOAD",
            Self::InvalidRamdisk => "PVM_FIRMWARE_INVALID_RAMDISK",
            Self::PayloadVerificationError => "PVM_FIRMWARE_PAYLOAD_VERIFICATION_FAILED",
            Self::SecretDerivationError => "PVM_FIRMWARE_SECRET_DERIVATION_FAILED",
        }
    }
}

/// The stage that the firmware hands over to.
#[derive(Clone, Copy, Debug, PartialEq, Eq, Structural)]
pub enum NextStage {
    /// A Linux kernel at the given address, without access to the UART.
    LinuxBoot(usize),
    /// A Linux kernel at the given address, with access to the UART.
    LinuxBootWithUart(usize),
}

/// The stage that the firmware hands over to: the kernel at `kernel`, with the
/// UART if it is to be kept.
pub fn select_next_stage(kernel: usize, keep_uart: bool) -> (r: NextStage)
    ensures
        r == (if keep_uart {
            NextStage::LinuxBootWithUart(kernel)
        } else {
            NextStage::LinuxBoot(kernel)
        }),
{
    if keep_uart {
        NextStage::LinuxBootWithUart(kernel)
    } else {
        NextStage::LinuxBoot(kernel)
    }
}

/// The alignment that the registers of the jump to the guest are stored with.
pub const ASM_STP_ALIGN: usize = 16;

/// Whether a range is no empty range and starts and ends at addresses that are
/// aligned for the jump to the guest.
pub open spec fn spec_is_zeroable(range: Range<usize>) -> bool {
    &&& range.start < range.end
    &&& range.start % ASM_STP_ALIGN == 0
    &&& range.end % ASM_STP_ALIGN == 0
}

/// Whether the firmware can enter the guest with the given scratch memory, DICE
/// handover and stacks: the jump zeroes them, which needs them aligned, and the
/// handover must lie in the scratch memory, which is left to the guest.
pub open spec fn spec_can_jump(
    scratch: Range<usize>,
    dice_chain: Range<usize>,
    stack: Range<usize>,
    eh_stack: Range<usize>,
) -> bool {
    &&& spec_is_zeroable(scratch)
    &&& scratch.start <= dice_chain.start && dice_chain.end <= scratch.end
    &&& dice_chain.start % ASM_STP_ALIGN == 0
    &&& dice_chain.end % ASM_STP_ALIGN == 0
    &&& spec_is_zeroable(stack)
    &&& spec_is_zeroable(eh_stack)
}

/// Whether a range is no empty range and is aligned for the jump to the guest.
pub fn is_zeroable(range: &Range<usize>) -> (r: bool)
    ensures
        r == spec_is_zeroable(*range),
{
    range.start < range.end && range.start % ASM_STP_ALIGN == 0 && range.end % ASM_STP_ALIGN == 0
}

/// Whether the firmware can enter the guest with the given memory.
pub fn can_jump(
    scratch: &Range<usize>,
    dice_chain: &Range<usize>,
    stack: &Range<usize>,
    eh_stack: &Range<usize>,
) -> (r: bool)
    ensures
        r == spec_can_jump(*scratch, *dice_chain, *stack, *eh_stack),
{
    is_zeroable(scratch) && scratch.start <= dice_chain.start && dice_chain.end <= scratch.end
        && dice_chain.start % ASM_STP_ALIGN == 0 && dice_chain.end % ASM_STP_ALIGN == 0
        && is_zeroable(stack) && is_zeroable(eh_stack)
}

/// The range of the kernel: the range that the device tree gives, if it gives
/// one; else, with `legacy`, the range that the loader passed in registers, which
/// must not be empty.
pub open spec fn spec_kernel_range(
    dt_range: Option<Range<usize>>,
    legacy: bool,
    kernel: usize,
    kernel_size: usize,
) -> Result<Range<usize>, RebootReason> {
    match dt_range {
        Some(range) => Ok(range),
        None => if legacy && kernel_size != 0 {
            Ok(Range { start: kernel, end: (kernel + kernel_size) as usize })
        } else {
            Err(RebootReason::InvalidPayload)
        },
    }
}

/// Locates the kernel.
pub fn kernel_range(
    dt_range: Option<Range<usize>>,
    legacy: bool,
    kernel: usize,
    kernel_size: usize,
) -> (r: Result<Range<usize>, RebootReason>)
    requires
        kernel + kernel_size <= usize::MAX,
    ensures
        r == spec_kernel_range(dt_range, legacy, kernel, kernel_size),
{
    match dt_range {
        Some(range) => Ok(range),
        None => if legacy && kernel_size != 0 {
            Ok(kernel..kernel + kernel_size)
        } else {
            Err(RebootReason::InvalidPayload)
        },
    }
}

} // verus!
