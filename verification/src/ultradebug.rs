//! The SPI session of an Ultradebug adapter: configuration, clock-edge
//! selection, and the compilation of a transaction into the command list that
//! the shift engine runs with chip-select held from the first byte to the last.

use vstd::prelude::*;
use crate::error::Error;
use crate::mpsse::{derivable, ClockEdge, Command, Context, DataShiftOptions};
use crate::spi::{ClockPolarity, Transfer, TransferMode};

verus! {

/// The edges a polarity stands for: first the edge on which incoming data is
/// sampled, then the edge on which outgoing data is driven.
pub open spec fn clock_edges(polarity: ClockPolarity) -> (ClockEdge, ClockEdge) {
    match polarity {
        ClockPolarity::IdleLow => (ClockEdge::Rising, ClockEdge::Falling),
        ClockPolarity::IdleHigh => (ClockEdge::Falling, ClockEdge::Rising),
    }
}

/// Resolves a polarity into its sample and drive edges.
pub fn resolve_edges(polarity: ClockPolarity) -> (edges: (ClockEdge, ClockEdge))
    ensures
        edges == clock_edges(polarity),
{
    match polarity {
        ClockPolarity::IdleLow => (ClockEdge::Rising, ClockEdge::Falling),
        ClockPolarity::IdleHigh => (ClockEdge::Falling, ClockEdge::Rising),
    }
}

/// The bit of the low GPIO byte that drives chip-select: the bit numbered
/// `PIN_CHIP_SELECT`.
pub open spec fn chip_select_mask() -> u8 {
    0x08
}

/// The GPIO value that holds chip-select low and leaves every other line alone.
pub open spec fn chip_select_asserted(value: u8) -> u8 {
    value & !chip_select_mask()
}

/// The GPIO value that lets chip-select go high and leaves every other line alone.
pub open spec fn chip_select_released(value: u8) -> u8 {
    value | chip_select_mask()
}

/// The command that carries out one transfer under a polarity, on the
/// transfer's own buffers.
pub open spec fn command_for(polarity: ClockPolarity, transfer: Transfer) -> Command {
    let (sample, drive) = clock_edges(polarity);
    match transfer {
        Transfer::Read(buffer) => Command::ReadData(DataShiftOptions::reading(sample), buffer),
        Transfer::Write(buffer) => Command::WriteData(DataShiftOptions::writing(drive), buffer),
        Transfer::Both(outgoing, incoming) => Command::TransactData(
            DataShiftOptions::writing(drive),
            outgoing,
            DataShiftOptions::reading(sample),
            incoming,
        ),
    }
}

/// The transfer whose buffers a command holds; a GPIO command holds none.
pub open spec fn transfer_for(command: Command) -> Option<Transfer> {
    match command {
        Command::SetLowGpio(_, _) => None,
        Command::ReadData(_, buffer) => Some(Transfer::Read(buffer)),
        Command::WriteData(_, buffer) => Some(Transfer::Write(buffer)),
        Command::TransactData(_, outgoing, _, incoming) => Some(Transfer::Both(outgoing, incoming)),
    }
}

/// The transfers held by the data commands of a list, in the list's order.
pub open spec fn transfers_of(commands: Seq<Command>) -> Seq<Transfer>
    decreases commands.len(),
{
    if commands.len() == 0 {
        Seq::empty()
    } else {
        let before = transfers_of(commands.drop_last());
        match transfer_for(commands.last()) {
            Some(transfer) => before.push(transfer),
            None => before,
        }
    }
}

/// A list that starts and ends with a GPIO command and holds data commands
/// only in between.
pub open spec fn bracketed(commands: Seq<Command>) -> bool {
    &&& commands.len() >= 2
    &&& commands.first() is SetLowGpio
    &&& commands.last() is SetLowGpio
    &&& forall|i: int| 1 <= i < commands.len() - 1 ==> !(#[trigger] commands[i] is SetLowGpio)
}

/// Compiles one transfer, moving its buffers into the command.
pub fn compile_transfer(polarity: ClockPolarity, transfer: Transfer) -> (command: Command)
    ensures
        command == command_for(polarity, transfer),
{
    let (sample, drive) = resolve_edges(polarity);
    match transfer {
        Transfer::Read(buffer) => Command::ReadData(
            DataShiftOptions { read_clock_edge: sample, read_data: true, ..Default::default() },
            buffer,
        ),
        Transfer::Write(buffer) => Command::WriteData(
            DataShiftOptions { write_clock_edge: drive, write_data: true, ..Default::default() },
            buffer,
        ),
        Transfer::Both(outgoing, incoming) => Command::TransactData(
            DataShiftOptions { write_clock_edge: drive, write_data: true, ..Default::default() },
            outgoing,
            DataShiftOptions { read_clock_edge: sample, read_data: true, ..Default::default() },
            incoming,
        ),
    }
}

/// Takes the buffers back out of a command list, as the transfers they came in.
pub fn collect_transfers(commands: Vec<Command>) -> (transaction: Vec<Transfer>)
    ensures
        transaction@ == transfers_of(commands@),
{
    let ghost all = commands@;
    let mut transaction: Vec<Transfer> = Vec::new();
    proof {
        assert(all.take(0) =~= Seq::<Command>::empty());
    }
    for command in it: commands
        invariant
            it.seq() == all,
            transaction@ == transfers_of(all.take(it.index() as int)),
    {
        proof {
            let next = all.take(it.index() + 1);
            assert(next.drop_last() =~= all.take(it.index() as int));
        }
        match command {
            Command::SetLowGpio(_, _) => {},
            Command::ReadData(_, buffer) => transaction.push(Transfer::Read(buffer)),
            Command::WriteData(_, buffer) => transaction.push(Transfer::Write(buffer)),
            Command::TransactData(_, outgoing, _, incoming) => transaction.push(
                Transfer::Both(outgoing, incoming),
            ),
        }
    }
    proof {
        assert(all.take(all.len() as int) =~= all);
    }
    transaction
}

/// An SPI session: the adapter state it works on, the transfer mode and the
/// target clock.
#[derive(Clone, Copy, Debug, PartialEq, Eq, Structural)]
pub struct UltradebugSpi {
    pub device: Context,
    pub mode: TransferMode,
    pub speed: u32,
}

impl UltradebugSpi {
    pub const PIN_CLOCK: u32 = 0;
    pub const PIN_MOSI: u32 = 1;
    pub const PIN_MISO: u32 = 2;
    pub const PIN_CHIP_SELECT: u32 = 3;
    pub const PIN_SPI_ZB: u32 = 4;
    /// Advised ceiling on the transfers of one transaction.
    pub const MAX_TRANSFER_COUNT: usize = 42;
    /// Size of the adapter's read buffer, in bytes.
    pub const MAX_CHUNK_SIZE: usize = 65536;

    /// The session speaks of a real clock, and its speed is the one the adapter
    /// shifts at.
    pub open spec fn wf(self) -> bool {
        self.device.wf() && self.speed == self.device.clock_frequency
    }

    /// The command list of a transaction: chip-select asserted, one data
    /// command per transfer in order, chip-select released.
    pub open spec fn compiled(self, transaction: Seq<Transfer>) -> Seq<Command> {
        Seq::new(
            transaction.len() + 2,
            |i: int|
                if i == 0 {
                    Command::SetLowGpio(
                        self.device.gpio_direction,
                        chip_select_asserted(self.device.gpio_value),
                    )
                } else if i == transaction.len() + 1 {
                    Command::SetLowGpio(
                        self.device.gpio_direction,
                        chip_select_released(self.device.gpio_value),
                    )
                } else {
                    command_for(self.mode.polarity_of(), transaction[i - 1])
                },
        )
    }

    /// Starts a session on an adapter in the state `device`: mode 0, at the
    /// clock the adapter already runs.
    pub fn open(device: Context) -> (spi: UltradebugSpi)
        ensures
            spi == (UltradebugSpi { device, mode: TransferMode::Mode0, speed: device.clock_frequency }),
            spi.wf() <==> device.wf(),
    {
        UltradebugSpi { device, mode: TransferMode::Mode0, speed: device.clock_frequency }
    }

    /// The mode the session shifts in.
    pub fn get_transfer_mode(&self) -> (result: Result<TransferMode, Error>)
        ensures
            result == Ok::<TransferMode, Error>(self.mode),
    {
        Ok(self.mode)
    }

    /// Changes the mode and nothing else. Always succeeds.
    pub fn set_transfer_mode(&mut self, mode: TransferMode) -> (result: Result<(), Error>)
        ensures
            result == Ok::<(), Error>(()),
            *final(self) == (UltradebugSpi { mode, ..*old(self) }),
            old(self).wf() ==> final(self).wf(),
    {
        self.mode = mode;
        Ok(())
    }

    /// The word size, fixed at eight bits.
    pub fn get_bits_per_word(&self) -> (result: Result<u32, Error>)
        ensures
            result == Ok::<u32, Error>(8),
    {
        Ok(8)
    }

    /// Accepts the one word size the transport has; the session is never changed.
    pub fn set_bits_per_word(&mut self, bits_per_word: u32) -> (result: Result<(), Error>)
        ensures
            *final(self) == *old(self),
            bits_per_word == 8 ==> result == Ok::<(), Error>(()),
            bits_per_word != 8 ==> result == Err::<(), Error>(Error::InvalidWordSize(bits_per_word)),
    {
        match bits_per_word {
            8 => Ok(()),
            _ => Err(Error::InvalidWordSize(bits_per_word)),
        }
    }

    /// The fastest clock the adapter can shift at.
    pub fn get_max_speed(&self) -> (result: Result<u32, Error>)
        ensures
            result == Ok::<u32, Error>(self.device.max_clock_frequency),
    {
        Ok(self.device.max_clock_frequency)
    }

    /// Retunes the session to `frequency` if a whole divider of the adapter's
    /// maximum gives it; otherwise the session stays as it was.
    pub fn set_max_speed(&mut self, frequency: u32) -> (result: Result<(), Error>)
        ensures
            derivable(old(self).device.max_clock_frequency, frequency) ==> {
                &&& result == Ok::<(), Error>(())
                &&& *final(self) == (UltradebugSpi {
                    device: Context { clock_frequency: frequency, ..old(self).device },
                    speed: frequency,
                    ..*old(self)
                })
            },
            !derivable(old(self).device.max_clock_frequency, frequency) ==> {
                &&& result == Err::<(), Error>(Error::InvalidSpeed(frequency))
                &&& *final(self) == *old(self)
            },
            old(self).wf() ==> final(self).wf(),
    {
        match self.device.set_clock_frequency(frequency) {
            Ok(()) => {
                self.speed = frequency;
                Ok(())
            },
            Err(e) => Err(e),
        }
    }

    /// How many transfers a transaction should hold at most. Advisory: no
    /// function here turns a longer transaction down.
    pub fn get_max_transfer_count(&self) -> (count: usize)
        ensures
            count == 42,
    {
        Self::MAX_TRANSFER_COUNT
    }

    /// The most bytes one read can bring in. Longer buffers are for the caller
    /// to split.
    pub fn max_chunk_size(&self) -> (size: usize)
        ensures
            size == 65536,
    {
        Self::MAX_CHUNK_SIZE
    }

    /// Compiles a transaction into the command list for the shift engine,
    /// moving every buffer into its command. Never fails.
    pub fn compile_transaction(&self, transaction: Vec<Transfer>) -> (commands: Vec<Command>)
        ensures
            commands@ == self.compiled(transaction@),
            commands@.len() == transaction@.len() + 2,
            commands@.first() == Command::SetLowGpio(
                self.device.gpio_direction,
                chip_select_asserted(self.device.gpio_value),
            ),
            commands@.last() == Command::SetLowGpio(
                self.device.gpio_direction,
                chip_select_released(self.device.gpio_value),
            ),
            forall|i: int|
                0 <= i < transaction@.len() ==> commands@[i + 1] == command_for(
                    self.mode.polarity_of(),
                    #[trigger] transaction@[i],
                ),
    {
        let ghost transfers = transaction@;
        let polarity = self.mode.polarity();
        let chip_select: u8 = 1u8 << Self::PIN_CHIP_SELECT;
        proof {
            assert(1u8 << 3u32 == 0x08u8) by (bit_vector);
        }
        let mut commands: Vec<Command> = Vec::new();
        commands.push(Command::SetLowGpio(self.device.gpio_direction, self.device.gpio_value & !chip_select));
        for transfer in it: transaction
            invariant
                it.seq() == transfers,
                commands@.len() == it.index() + 1,
                commands@[0] == self.compiled(transfers)[0],
                forall|j: int|
                    0 <= j < it.index() ==> #[trigger] commands@[j + 1] == command_for(polarity, transfers[j]),
        {
            let command = compile_transfer(polarity, transfer);
            commands.push(command);
        }
        commands.push(Command::SetLowGpio(self.device.gpio_direction, self.device.gpio_value | chip_select));
        proof {
            assert(commands@ =~= self.compiled(transfers)) by {
                assert forall|i: int| 0 <= i < commands@.len() implies commands@[i] == self.compiled(
                    transfers,
                )[i] by {
                    if 1 <= i < transfers.len() + 1 {
                        assert(commands@[(i - 1) + 1] == command_for(polarity, transfers[i - 1]));
                    }
                }
            }
        }
        commands
    }

    /// Runs a transaction: compiles it, hands the whole list to `execute` in one
    /// call, and puts the buffers that come back into `transaction` again. The
    /// outcome of `execute` is returned as it is; nothing is retried or undone.
    pub fn run_transaction<E, F>(&self, transaction: &mut Vec<Transfer>, execute: F) -> (result: Result<(), E>)
        where F: FnOnce(Vec<Command>) -> (Vec<Command>, Result<(), E>)
        requires
            forall|commands: Vec<Command>|
                commands@ == self.compiled(old(transaction)@) ==> execute.requires((commands,)),
        ensures
            exists|commands: Vec<Command>, executed: Vec<Command>|
                {
                    &&& commands@ == self.compiled(old(transaction)@)
                    &&& execute.ensures((commands,), (executed, result))
                    &&& final(transaction)@ == transfers_of(executed@)
                },
    {
        let mut transfers: Vec<Transfer> = Vec::new();
        core::mem::swap(transaction, &mut transfers);
        let commands = self.compile_transaction(transfers);
        let (executed, result) = execute(commands);
        *transaction = collect_transfers(executed);
        result
    }
}

/// The two GPIO values that bracket a transaction differ in the chip-select
/// bit and in nothing else: it is low in the first and high in the second, and
/// every other bit of both is the bit of `value`.
pub proof fn bracket_changes_chip_select_only(value: u8)
    ensures
        chip_select_mask() == 1u8 << UltradebugSpi::PIN_CHIP_SELECT,
        chip_select_asserted(value) ^ chip_select_released(value) == chip_select_mask(),
        chip_select_asserted(value) & chip_select_mask() == 0,
        chip_select_released(value) & chip_select_mask() == chip_select_mask(),
        chip_select_asserted(value) & !chip_select_mask() == value & !chip_select_mask(),
        chip_select_released(value) & !chip_select_mask() == value & !chip_select_mask(),
{
    assert(1u8 << 3u32 == 0x08u8) by (bit_vector);
    assert((value & !0x08u8) ^ (value | 0x08u8) == 0x08u8) by (bit_vector);
    assert((value & !0x08u8) & 0x08u8 == 0u8) by (bit_vector);
    assert((value | 0x08u8) & 0x08u8 == 0x08u8) by (bit_vector);
    assert((value & !0x08u8) & !0x08u8 == value & !0x08u8) by (bit_vector);
    assert((value | 0x08u8) & !0x08u8 == value & !0x08u8) by (bit_vector);
}

proof fn lemma_transfers_of_prefix(commands: Seq<Command>, k: int)
    requires
        0 <= k < commands.len(),
        commands[0] is SetLowGpio,
        forall|i: int| 1 <= i <= k ==> !(#[trigger] commands[i] is SetLowGpio),
    ensures
        transfers_of(commands.take(k + 1)).len() == k,
        forall|i: int|
            0 <= i < k ==> transfer_for(commands[i + 1]) == Some(
                #[trigger] transfers_of(commands.take(k + 1))[i],
            ),
    decreases k,
{
    let prefix = commands.take(k + 1);
    if k == 0 {
        assert(prefix.drop_last() =~= Seq::<Command>::empty());
        assert(prefix.last() == commands[0]);
        assert(transfers_of(prefix.drop_last()) =~= Seq::<Transfer>::empty());
    } else {
        lemma_transfers_of_prefix(commands, k - 1);
        assert(prefix.drop_last() =~= commands.take(k));
        assert(prefix.last() == commands[k]);
        assert(!(commands[k] is SetLowGpio));
    }
}

/// Collecting a bracketed list gives one transfer per data command, in order,
/// each holding the buffers that its command holds at that time. So what the
/// engine has put into the read buffer of a command is what the caller finds
/// in the read buffer of the transfer.
pub proof fn collected_transfers_hold_command_buffers(executed: Seq<Command>, i: int)
    requires
        bracketed(executed),
        0 <= i < executed.len() - 2,
    ensures
        transfers_of(executed).len() == executed.len() - 2,
        transfer_for(executed[i + 1]) == Some(transfers_of(executed)[i]),
        executed[i + 1] matches Command::ReadData(_, incoming) ==> transfers_of(executed)[i]
            == Transfer::Read(incoming),
        executed[i + 1] matches Command::TransactData(_, outgoing, _, incoming) ==> transfers_of(
            executed,
        )[i] == Transfer::Both(outgoing, incoming),
{
    let n = executed.len() - 2;
    lemma_transfers_of_prefix(executed, n);
    assert(executed.drop_last() =~= executed.take(n + 1));
}

/// Collecting the command list of a transaction, untouched, gives the
/// transaction back: every transfer in its place, on its own buffers.
pub proof fn collect_inverts_compile(spi: UltradebugSpi, transaction: Seq<Transfer>)
    ensures
        bracketed(spi.compiled(transaction)),
        transfers_of(spi.compiled(transaction)) == transaction,
{
    let commands = spi.compiled(transaction);
    let polarity = spi.mode.polarity_of();
    assert forall|i: int| 0 <= i < transaction.len() implies transfer_for(
        #[trigger] commands[i + 1],
    ) == Some(transaction[i]) by {
        assert(commands[i + 1] == command_for(polarity, transaction[i]));
    }
    assert(bracketed(commands)) by {
        assert forall|i: int| 1 <= i < commands.len() - 1 implies !(#[trigger] commands[i]
            is SetLowGpio) by {
            assert(commands[(i - 1) + 1] == command_for(polarity, transaction[i - 1]));
        }
    }
    let collected = transfers_of(commands);
    assert(collected =~= transaction) by {
        assert(collected.len() == transaction.len()) by {
            if transaction.len() > 0 {
                collected_transfers_hold_command_buffers(commands, 0);
            } else {
                lemma_transfers_of_prefix(commands, 0);
                assert(commands.drop_last() =~= commands.take(1));
            }
        }
        assert forall|i: int| 0 <= i < transaction.len() implies collected[i] == transaction[i] by {
            collected_transfers_hold_command_buffers(commands, i);
        }
    }
}

} // verus!
