//! Command protocol of the W25Q family of SPI NOR flash chips.
//!
//! The crate decides what goes over the wire and in which order; it performs
//! no transfer itself. An operation is started on a [`W25Q`], which checks the
//! request against the chip's geometry and hands back a
//! [`protocol::Progress`]: either the outcome, or a [`protocol::Machine`]
//! that names the next thing to do on the bus. Whoever owns the bus carries
//! that out and reports what happened; the machine answers with the next step.

use vstd::prelude::*;

pub mod models;
pub mod protocol;
pub mod traces;

use crate::models::FlashModel;
use crate::protocol::{
    copy_bytes, JobView, Level, Machine, MachineView, Pin, Progress, ProgressView, ReadbackView, Wait,
    UNIQUE_ID_LEN,
};

verus! {

/// The commands that the driver sends to the chip.
#[derive(Debug, Clone, Copy, PartialEq, Eq, Structural)]
pub enum Command {
    PageProgram,
    ReadData,
    ReadStatusRegister1,
    WriteEnable,
    SectorErase,
    UniqueId,
    Block32Erase,
    Block64Erase,
    ChipErase,
    EnableReset,
    PowerDown,
    ReleasePowerDown,
    Reset,
}

impl Command {
    /// The byte that selects this command on the wire.
    pub open spec fn spec_opcode(self) -> u8 {
        match self {
            Command::PageProgram => 0x02,
            Command::ReadData => 0x03,
            Command::ReadStatusRegister1 => 0x05,
            Command::WriteEnable => 0x06,
            Command::SectorErase => 0x20,
            Command::UniqueId => 0x4B,
            Command::Block32Erase => 0x52,
            Command::Block64Erase => 0xD8,
            Command::ChipErase => 0xC7,
            Command::EnableReset => 0x66,
            Command::PowerDown => 0xB9,
            Command::ReleasePowerDown => 0xAB,
            Command::Reset => 0x99,
        }
    }

    /// Whether the opcode is followed by a three-byte address.
    pub open spec fn spec_takes_address(self) -> bool {
        self == Command::PageProgram || self == Command::ReadData || self == Command::SectorErase
            || self == Command::Block32Erase || self == Command::Block64Erase
    }

    /// The byte that selects this command on the wire.
    #[verifier::when_used_as_spec(spec_opcode)]
    pub fn opcode(self) -> (code: u8)
        ensures
            code == self.spec_opcode(),
    {
        match self {
            Command::PageProgram => 0x02,
            Command::ReadData => 0x03,
            Command::ReadStatusRegister1 => 0x05,
            Command::WriteEnable => 0x06,
            Command::SectorErase => 0x20,
            Command::UniqueId => 0x4B,
            Command::Block32Erase => 0x52,
            Command::Block64Erase => 0xD8,
            Command::ChipErase => 0xC7,
            Command::EnableReset => 0x66,
            Command::PowerDown => 0xB9,
            Command::ReleasePowerDown => 0xAB,
            Command::Reset => 0x99,
        }
    }

    /// Whether the opcode is followed by a three-byte address.
    #[verifier::when_used_as_spec(spec_takes_address)]
    pub fn takes_address(self) -> (yes: bool)
        ensures
            yes == self.spec_takes_address(),
    {
        match self {
            Command::PageProgram
            | Command::ReadData
            | Command::SectorErase
            | Command::Block32Erase
            | Command::Block64Erase => true,
            _ => false,
        }
    }
}

/// No two commands share an opcode.
pub proof fn opcodes_are_distinct(a: Command, b: Command)
    requires
        a.opcode() == b.opcode(),
    ensures
        a == b,
{
}

/// The three address bytes of a frame, most significant first. Only the low
/// 24 bits of `address` take part.
pub open spec fn address_bytes(address: u32) -> Seq<u8> {
    seq![
        ((address / 0x1_0000) % 0x100) as u8,
        ((address / 0x100) % 0x100) as u8,
        (address % 0x100) as u8,
    ]
}

/// An opcode followed by the three address bytes.
pub open spec fn frame(opcode: u8, address: u32) -> Seq<u8> {
    seq![opcode] + address_bytes(address)
}

/// The number that three bytes stand for when read most significant first.
pub open spec fn big_endian_24(bytes: Seq<u8>) -> nat {
    (bytes[0] * 0x1_0000 + bytes[1] * 0x100 + bytes[2]) as nat
}

/// What a command looks like on the wire: the opcode alone, or the opcode and
/// the address where the command takes one.
pub open spec fn encoding(command: Command, address: u32) -> Seq<u8> {
    if command.takes_address() {
        frame(command.opcode(), address)
    } else {
        seq![command.opcode()]
    }
}

/// The address bytes of a frame read back as the low 24 bits of the address,
/// so that every address below 2^24 is carried without loss.
pub proof fn address_bytes_round_trip(address: u32)
    ensures
        address_bytes(address).len() == 3,
        big_endian_24(address_bytes(address)) == address % 0x100_0000,
        address < 0x100_0000 ==> big_endian_24(address_bytes(address)) == address,
{
    let a = address as int;
    assert(((a / 0x1_0000) % 0x100) * 0x1_0000 + ((a / 0x100) % 0x100) * 0x100 + a % 0x100 == a
        % 0x100_0000) by (nonlinear_arith)
        requires
            0 <= a,
    ;
}

/// Builds the four-byte frame of a command that takes an address.
pub fn command_and_address(command: u8, address: u32) -> (bytes: [u8; 4])
    ensures
        bytes@ == frame(command, address),
{
    let high: u8 = ((address & 0xFF0000) >> 16) as u8;
    let middle: u8 = ((address & 0x00FF00) >> 8) as u8;
    let low: u8 = (address & 0x0000FF) as u8;
    proof {
        assert(((address & 0xFF0000) >> 16) == (address / 0x1_0000) % 0x100) by (bit_vector);
        assert(((address & 0x00FF00) >> 8) == (address / 0x100) % 0x100) by (bit_vector);
        assert((address & 0x0000FF) == address % 0x100) by (bit_vector);
    }
    let bytes = [command, high, middle, low];
    assert(bytes@ =~= frame(command, address));
    bytes
}

/// Encodes a command for the wire. The address is ignored by commands that
/// take none.
pub fn encode(command: Command, address: u32) -> (bytes: Vec<u8>)
    ensures
        bytes@ == encoding(command, address),
{
    let mut bytes: Vec<u8> = Vec::new();
    if command.takes_address() {
        let with_address = command_and_address(command.opcode(), address);
        bytes.push(with_address[0]);
        bytes.push(with_address[1]);
        bytes.push(with_address[2]);
        bytes.push(with_address[3]);
    } else {
        bytes.push(command.opcode());
    }
    assert(bytes@ =~= encoding(command, address));
    bytes
}

/// The classes of failure that a generic flash-storage interface tells apart.
#[derive(Debug, Clone, Copy, PartialEq, Eq, Structural)]
pub enum ErrorKind {
    /// The arguments are not properly aligned.
    NotAligned,
    /// The arguments are out of bounds.
    OutOfBounds,
    /// A failure specific to this driver.
    Other,
}

/// Everything that can go wrong in an operation. `S` is the error of the
/// transport, `P` the error of the pins.
#[derive(Debug, PartialEq, Eq)]
pub enum Error<S, P> {
    /// The transport failed.
    SpiError(S),
    /// A pin could not be driven.
    PinError(P),
    /// The address does not respect the boundaries that the operation needs.
    NotAligned,
    /// The request reaches beyond what the chip or a page can hold.
    OutOfBounds,
    /// The chip did not report its write-enable latch as set.
    WriteEnableFail,
    /// The bytes read back after programming differ from the bytes written.
    ReadbackFail,
}

impl<S, P> Error<S, P> {
    /// Classifies the error for a generic flash-storage interface: the two
    /// kinds of misuse keep their names, everything else is `Other`.
    pub fn kind(&self) -> (kind: ErrorKind)
        ensures
            self is NotAligned ==> kind == ErrorKind::NotAligned,
            self is OutOfBounds ==> kind == ErrorKind::OutOfBounds,
            !(self is NotAligned) && !(self is OutOfBounds) ==> kind == ErrorKind::Other,
    {
        match self {
            Error::NotAligned => ErrorKind::NotAligned,
            Error::OutOfBounds => ErrorKind::OutOfBounds,
            _ => ErrorKind::Other,
        }
    }
}

/// How much one erase command clears.
#[derive(Debug, Clone, Copy, PartialEq, Eq, Structural)]
pub enum Granularity {
    Sector,
    Block32K,
    Block64K,
    Chip,
}

impl Granularity {
    /// Bytes that one erase of this granularity clears on model `M`.
    pub open spec fn spec_size<M: FlashModel>(self) -> nat {
        match self {
            Granularity::Sector => models::sector_size::<M>(),
            Granularity::Block32K => models::block_32k_size::<M>(),
            Granularity::Block64K => models::block_64k_size::<M>(),
            Granularity::Chip => models::capacity::<M>(),
        }
    }

    /// The command that erases this much.
    pub open spec fn spec_command(self) -> Command {
        match self {
            Granularity::Sector => Command::SectorErase,
            Granularity::Block32K => Command::Block32Erase,
            Granularity::Block64K => Command::Block64Erase,
            Granularity::Chip => Command::ChipErase,
        }
    }

    /// Bytes that one erase of this granularity clears on model `M`.
    pub fn size<M: FlashModel>(self) -> (bytes: u32)
        ensures
            bytes == self.spec_size::<M>(),
            self != Granularity::Chip ==> bytes > 0,
    {
        proof {
            M::geometry_is_valid();
        }
        match self {
            Granularity::Sector => M::sector_size(),
            Granularity::Block32K => M::block_32k_size(),
            Granularity::Block64K => M::block_64k_size(),
            Granularity::Chip => M::capacity(),
        }
    }

    /// The command that erases this much.
    #[verifier::when_used_as_spec(spec_command)]
    pub fn command(self) -> (command: Command)
        ensures
            command == self.spec_command(),
    {
        match self {
            Granularity::Sector => Command::SectorErase,
            Granularity::Block32K => Command::Block32Erase,
            Granularity::Block64K => Command::Block64Erase,
            Granularity::Chip => Command::ChipErase,
        }
    }
}

/// The exchange of the unique-id command: the opcode and four dummy bytes.
pub open spec fn unique_id_frame() -> Seq<u8> {
    seq![Command::UniqueId.opcode(), 0, 0, 0, 0]
}

/// How a read of `length` bytes at `address` starts on model `M`.
///
/// A range that ends within the chip leads to one exchange, the read command
/// and its address, whose read is the result. Any other range is refused as
/// out of bounds, with nothing sent.
pub open spec fn read_start<M: FlashModel, S, P>(address: u32, length: nat) -> ProgressView<S, P> {
    if address + length <= models::capacity::<M>() {
        ProgressView::Pending(
            MachineView::Exchanging {
                out: frame(Command::ReadData.opcode(), address),
                read_len: length,
            },
        )
    } else {
        ProgressView::Finished(Err(Error::OutOfBounds))
    }
}

/// The validated form of a program of `data` at `address`: its command
/// exchange is the program command, the address and the data.
pub open spec fn program_job(address: u32, data: Seq<u8>, wait: Wait, readback: bool) -> JobView {
    JobView {
        frame: frame(Command::PageProgram.opcode(), address) + data,
        readback: if readback {
            Some(ReadbackView { address, data })
        } else {
            None
        },
        wait,
    }
}

/// How a program of `data` at `address` starts on model `M`.
///
/// The data must fit in the page that `address` lies in. Data longer than a
/// page is refused as out of bounds, data that would cross the end of its
/// page as not aligned, both with nothing sent. Otherwise the operation
/// starts with the write-enable command.
pub open spec fn program_start<M: FlashModel, S, P>(
    address: u32,
    data: Seq<u8>,
    wait: Wait,
    readback: bool,
) -> ProgressView<S, P> {
    if data.len() > M::PAGE_SIZE {
        ProgressView::Finished(Err(Error::OutOfBounds))
    } else if address % M::PAGE_SIZE + data.len() > M::PAGE_SIZE {
        ProgressView::Finished(Err(Error::NotAligned))
    } else {
        ProgressView::Pending(
            MachineView::WriteEnableSent(program_job(address, data, wait, readback)),
        )
    }
}

/// The validated form of an erase: its command exchange is the erase
/// command, with the address unless the whole chip is erased.
pub open spec fn erase_job(address: u32, granularity: Granularity, wait: Wait) -> JobView {
    JobView { frame: encoding(granularity.command(), address), readback: None, wait }
}

/// How an erase of the unit of the given granularity at `address` starts on
/// model `M`.
///
/// A sector or block must start at a multiple of its size; any other address
/// is refused as not aligned, with nothing sent. A chip erase ignores the
/// address. The operation starts with the write-enable command.
pub open spec fn erase_start<M: FlashModel, S, P>(
    address: u32,
    granularity: Granularity,
    wait: Wait,
) -> ProgressView<S, P> {
    if granularity != Granularity::Chip && address as nat % granularity.spec_size::<M>() != 0 {
        ProgressView::Finished(Err(Error::NotAligned))
    } else {
        ProgressView::Pending(MachineView::WriteEnableSent(erase_job(address, granularity, wait)))
    }
}

/// The bytes of `head` followed by those of `tail`.
fn joined(head: Vec<u8>, tail: &[u8]) -> (all: Vec<u8>)
    ensures
        all@ == head@ + tail@,
{
    let mut all = head;
    let mut i: usize = 0;
    while i < tail.len()
        invariant
            i <= tail.len(),
            all@ == head@ + tail@.take(i as int),
        decreases tail.len() - i,
    {
        all.push(tail[i]);
        i += 1;
        assert(tail@.take(i as int) =~= tail@.take(i - 1).push(tail@[i - 1]));
        assert(all@ =~= head@ + tail@.take(i as int));
    }
    assert(tail@.take(i as int) =~= tail@);
    all
}

/// Low level driver for the W25Q flash memory chips: the chip model together
/// with the transport that reaches the chip, and the two choices that shape
/// its operations.
///
/// The driver starts operations and leaves the bus to its owner: each
/// operation returns the [`Progress`] it has made before the first exchange.
pub struct W25Q<MODEL, SPI> {
    model: MODEL,
    spi: SPI,
    wait: Wait,
    readback: bool,
}

impl<MODEL: FlashModel, SPI> W25Q<MODEL, SPI> {
    /// The model that the driver was made with.
    pub closed spec fn spec_model(&self) -> MODEL {
        self.model
    }

    /// The transport that the driver was made with.
    pub closed spec fn spec_spi(&self) -> SPI {
        self.spi
    }

    /// How the driver's program and erase operations wait for the chip.
    pub closed spec fn spec_wait(&self) -> Wait {
        self.wait
    }

    /// Whether the driver's program operations read back what they wrote.
    pub closed spec fn spec_readback(&self) -> bool {
        self.readback
    }

    /// Bundles a model and the transport that reaches the chip. The driver
    /// polls without yielding and does not read back what it programs.
    pub fn new(model: MODEL, spi: SPI) -> (driver: Self)
        ensures
            driver.spec_model() == model,
            driver.spec_spi() == spi,
            driver.wait() == Wait::Spin,
            !driver.readback(),
    {
        W25Q { model, spi, wait: Wait::Spin, readback: false }
    }

    /// The same driver, waiting for the chip as `wait` says.
    pub fn with_wait(self, wait: Wait) -> (driver: Self)
        ensures
            driver.spec_model() == self.spec_model(),
            driver.spec_spi() == self.spec_spi(),
            driver.wait() == wait,
            driver.readback() == self.readback(),
    {
        W25Q { model: self.model, spi: self.spi, wait, readback: self.readback }
    }

    /// The same driver, with readback verification switched on or off.
    pub fn with_readback(self, readback: bool) -> (driver: Self)
        ensures
            driver.spec_model() == self.spec_model(),
            driver.spec_spi() == self.spec_spi(),
            driver.wait() == self.wait(),
            driver.readback() == readback,
    {
        W25Q { model: self.model, spi: self.spi, wait: self.wait, readback }
    }

    /// Get the model of the flash chip.
    pub fn model(&self) -> (model: &MODEL)
        ensures
            *model == self.spec_model(),
    {
        &self.model
    }

    /// Get the capacity of the flash chip in bytes.
    pub fn capacity() -> (bytes: usize)
        ensures
            bytes == models::capacity::<MODEL>(),
    {
        MODEL::capacity() as usize
    }

    /// How the driver's program and erase operations wait for the chip.
    #[verifier::when_used_as_spec(spec_wait)]
    pub fn wait(&self) -> (wait: Wait)
        ensures
            wait == self.spec_wait(),
    {
        self.wait
    }

    /// Whether the driver's program operations read back what they wrote.
    #[verifier::when_used_as_spec(spec_readback)]
    pub fn readback(&self) -> (readback: bool)
        ensures
            readback == self.spec_readback(),
    {
        self.readback
    }

    /// Lends the transport to whoever carries out the exchanges.
    pub fn spi(&mut self) -> (spi: &mut SPI)
        ensures
            *spi == old(self).spec_spi(),
            final(self).spec_spi() == *final(spi),
            final(self).spec_model() == old(self).spec_model(),
            final(self).wait() == old(self).wait(),
            final(self).readback() == old(self).readback(),
    {
        &mut self.spi
    }

    /// Takes the driver apart again.
    pub fn release(self) -> (parts: (MODEL, SPI))
        ensures
            parts.0 == self.spec_model(),
            parts.1 == self.spec_spi(),
    {
        (self.model, self.spi)
    }

    /// Starts reading `length` bytes from `address`: see [`read_start`].
    pub fn read<S, P>(&self, address: u32, length: usize) -> (progress: Progress<S, P>)
        ensures
            progress@ == read_start::<MODEL, S, P>(address, length as nat),
    {
        let capacity = Self::capacity();
        if length > capacity || address as usize > capacity - length {
            Progress::Finished(Err(Error::OutOfBounds))
        } else {
            Machine::exchanging(encode(Command::ReadData, address), length)
        }
    }

    /// Starts programming `data` at `address`, waiting and verifying as the
    /// driver was set up to: see [`program_start`].
    pub fn program<S, P>(&self, address: u32, data: &[u8]) -> (progress: Progress<S, P>)
        ensures
            progress@ == program_start::<MODEL, S, P>(
                address,
                data@,
                self.wait(),
                self.readback(),
            ),
    {
        proof {
            MODEL::geometry_is_valid();
        }
        let page = MODEL::PAGE_SIZE as usize;
        let offset = (address % MODEL::PAGE_SIZE) as usize;
        if data.len() > page {
            Progress::Finished(Err(Error::OutOfBounds))
        } else if offset + data.len() > page {
            Progress::Finished(Err(Error::NotAligned))
        } else {
            let frame = joined(encode(Command::PageProgram, address), data);
            let expected = if self.readback {
                Some(copy_bytes(data))
            } else {
                None
            };
            Machine::destructive(frame, address, expected, self.wait)
        }
    }

    /// Starts erasing the unit of the given granularity at `address`,
    /// waiting as the driver was set up to: see [`erase_start`].
    pub fn erase<S, P>(&self, address: u32, granularity: Granularity) -> (progress: Progress<S, P>)
        ensures
            progress@ == erase_start::<MODEL, S, P>(address, granularity, self.wait()),
    {
        match granularity {
            Granularity::Chip => Machine::destructive(
                encode(Command::ChipErase, address),
                address,
                None,
                self.wait,
            ),
            _ => {
                if address % granularity.size::<MODEL>() != 0 {
                    Progress::Finished(Err(Error::NotAligned))
                } else {
                    Machine::destructive(
                        encode(granularity.command(), address),
                        address,
                        None,
                        self.wait,
                    )
                }
            },
        }
    }

    /// Starts reading the chip's unique identifier: one exchange that sends
    /// the command and four dummy bytes and reads the eight bytes of the
    /// identifier.
    pub fn unique_id<S, P>(&self) -> (progress: Progress<S, P>)
        ensures
            progress@ == ProgressView::<S, P>::Pending(
                MachineView::Exchanging { out: unique_id_frame(), read_len: 8 },
            ),
    {
        let mut out = encode(Command::UniqueId, 0);
        out.push(0);
        out.push(0);
        out.push(0);
        out.push(0);
        assert(out@ =~= unique_id_frame());
        Machine::exchanging(out, UNIQUE_ID_LEN)
    }

    /// Starts putting the chip to sleep: one exchange with the bare opcode.
    pub fn power_down<S, P>(&self) -> (progress: Progress<S, P>)
        ensures
            progress@ == ProgressView::<S, P>::Pending(
                MachineView::Exchanging { out: seq![Command::PowerDown.opcode()], read_len: 0 },
            ),
    {
        Machine::exchanging(encode(Command::PowerDown, 0), 0)
    }

    /// Starts waking the chip: one exchange with the bare opcode.
    pub fn release_power_down<S, P>(&self) -> (progress: Progress<S, P>)
        ensures
            progress@ == ProgressView::<S, P>::Pending(
                MachineView::Exchanging {
                    out: seq![Command::ReleasePowerDown.opcode()],
                    read_len: 0,
                },
            ),
    {
        Machine::exchanging(encode(Command::ReleasePowerDown, 0), 0)
    }

    /// Starts a reset: the enable-reset command, then the reset command.
    pub fn reset<S, P>(&self) -> (progress: Progress<S, P>)
        ensures
            progress@ == ProgressView::<S, P>::Pending(MachineView::ResetEnabled),
    {
        Machine::resetting()
    }

    /// Starts what a driver with pins does when it is made: the hold line is
    /// driven high, then the write-protect line.
    pub fn init_pins<S, P>() -> (progress: Progress<S, P>)
        ensures
            progress@ == ProgressView::<S, P>::Pending(
                MachineView::DrivingPin {
                    pin: Pin::Hold,
                    level: Level::High,
                    then: Some(Pin::WriteProtect),
                },
            ),
    {
        Machine::driving(Pin::Hold, Level::High, Some(Pin::WriteProtect))
    }

    /// Starts driving the hold line to `level`. Nothing checks whether that
    /// is safe while an operation is in flight.
    pub fn set_hold<S, P>(&self, level: Level) -> (progress: Progress<S, P>)
        ensures
            progress@ == ProgressView::<S, P>::Pending(
                MachineView::DrivingPin { pin: Pin::Hold, level, then: None },
            ),
    {
        Machine::driving(Pin::Hold, level, None)
    }

    /// Starts driving the write-protect line to `level`. Nothing checks
    /// whether that is safe while an operation is in flight.
    pub fn set_wp<S, P>(&self, level: Level) -> (progress: Progress<S, P>)
        ensures
            progress@ == ProgressView::<S, P>::Pending(
                MachineView::DrivingPin { pin: Pin::WriteProtect, level, then: None },
            ),
    {
        Machine::driving(Pin::WriteProtect, level, None)
    }
}

} // verus!
