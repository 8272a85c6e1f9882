//! Whole runs of an operation: what it asks for while events are fed to it
//! one after another, and where that leaves it.

use vstd::prelude::*;

use crate::models::{capacity, FlashModel, ADDRESS_SPACE};
use crate::protocol::{
    bare, confirms_latch, reports_busy, status_read, ActionView, EventView, JobView, Level,
    MachineView, Pin, ProgressView, ReadbackView, Wait,
};
use crate::{
    address_bytes, address_bytes_round_trip, big_endian_24, erase_job, erase_start, frame,
    program_job, program_start, read_start, Command, Error, Granularity,
};

verus! {

/// Where an operation stands after the events were fed to it in order.
/// Events that arrive after the end are ignored.
pub open spec fn run<S, P>(start: ProgressView<S, P>, events: Seq<EventView<S, P>>) -> ProgressView<
    S,
    P,
>
    decreases events.len(),
{
    match start {
        ProgressView::Finished(_) => start,
        ProgressView::Pending(machine) => if events.len() == 0 {
            start
        } else {
            run(machine.next(events[0]), events.drop_first())
        },
    }
}

/// The actions that were carried out on the way: one for each event that the
/// operation took.
pub open spec fn issued<S, P>(start: ProgressView<S, P>, events: Seq<EventView<S, P>>) -> Seq<
    ActionView,
>
    decreases events.len(),
{
    match start {
        ProgressView::Finished(_) => Seq::empty(),
        ProgressView::Pending(machine) => if events.len() == 0 {
            Seq::empty()
        } else {
            seq![machine.action()] + issued(machine.next(events[0]), events.drop_first())
        },
    }
}

/// An answer to a status read that leaves the chip busy.
pub open spec fn is_busy_answer<S, P>(event: EventView<S, P>) -> bool {
    event matches EventView::Completed(response) && reports_busy(response)
}

/// An answer to a status read that shows the chip idle.
pub open spec fn is_idle_answer<S, P>(event: EventView<S, P>) -> bool {
    event matches EventView::Completed(response) && !reports_busy(response)
}

/// An answer to a status read that confirms the write-enable latch.
pub open spec fn is_latch_answer<S, P>(event: EventView<S, P>) -> bool {
    event matches EventView::Completed(response) && confirms_latch(response)
}

/// Answers to the three exchanges that open a program or erase, the second
/// of which confirms the write-enable latch.
pub open spec fn is_handshake<S, P>(events: Seq<EventView<S, P>>) -> bool {
    &&& events.len() == 3
    &&& events[0] is Completed
    &&& is_latch_answer(events[1])
    &&& events[2] is Completed
}

/// Answers to the status reads of a poll that does not yield: busy ones, then
/// one that shows the chip idle.
pub open spec fn is_spinning_poll<S, P>(events: Seq<EventView<S, P>>) -> bool {
    &&& events.len() > 0
    &&& forall|i: int| 0 <= i < events.len() - 1 ==> is_busy_answer(#[trigger] events[i])
    &&& is_idle_answer(events.last())
}

/// Events of a poll that yields: each busy answer is followed by the report
/// that the operation was resumed, and the last answer shows the chip idle.
pub open spec fn is_yielding_poll<S, P>(events: Seq<EventView<S, P>>) -> bool {
    &&& events.len() % 2 == 1
    &&& forall|i: int|
        0 <= i < events.len() - 1 ==> if i % 2 == 0 {
            is_busy_answer(#[trigger] events[i])
        } else {
            events[i] is Completed
        }
    &&& is_idle_answer(events.last())
}

/// Where a program or erase stands once the chip is idle again: at the
/// readback where one was asked for, else at its successful end.
pub open spec fn settled<S, P>(job: JobView) -> ProgressView<S, P> {
    match job.readback {
        Some(readback) => ProgressView::Pending(MachineView::Verifying(readback)),
        None => ProgressView::Finished(Ok(Seq::empty())),
    }
}

/// The exchange that carries the program or erase command of a job.
pub open spec fn command_exchange(job: JobView) -> ActionView {
    ActionView::Exchange { out: job.frame, read_len: 0 }
}

/// The exchange that reads `length` bytes from `address`.
pub open spec fn read_exchange(address: u32, length: nat) -> ActionView {
    ActionView::Exchange { out: frame(Command::ReadData.opcode(), address), read_len: length }
}

/// Feeding two sequences of events one after the other is feeding their
/// concatenation: the run ends in the same place and the same actions are
/// carried out.
pub proof fn runs_compose<S, P>(
    start: ProgressView<S, P>,
    first: Seq<EventView<S, P>>,
    second: Seq<EventView<S, P>>,
)
    ensures
        run(start, first + second) == run(run(start, first), second),
        issued(start, first + second) == issued(start, first) + issued(run(start, first), second),
    decreases first.len(),
{
    match start {
        ProgressView::Finished(_) => {
            assert(issued(start, first + second) =~= issued(start, first) + issued(
                run(start, first),
                second,
            ));
        },
        ProgressView::Pending(machine) => {
            if first.len() == 0 {
                assert(first + second =~= second);
                assert(issued(start, first + second) =~= issued(start, first) + issued(
                    run(start, first),
                    second,
                ));
            } else {
                let after = machine.next(first[0]);
                assert((first + second)[0] == first[0]);
                assert((first + second).drop_first() =~= first.drop_first() + second);
                runs_compose(after, first.drop_first(), second);
                assert(issued(start, first + second) =~= issued(start, first) + issued(
                    run(start, first),
                    second,
                ));
            }
        },
    }
}

/// An operation that has ended carries out nothing more, whatever is fed to
/// it. A request that is refused at its start has ended.
pub proof fn nothing_follows_the_end<S, P>(
    outcome: Result<Seq<u8>, Error<S, P>>,
    events: Seq<EventView<S, P>>,
)
    ensures
        issued(ProgressView::Finished(outcome), events) == Seq::<ActionView>::empty(),
        run(ProgressView::Finished(outcome), events) == ProgressView::Finished(outcome),
{
}

/// A failure of the transport ends an operation wherever it stands: the
/// pending action is the last one, and the outcome carries the transport's
/// error.
pub proof fn transport_failure_ends_the_operation<S, P>(
    machine: MachineView,
    error: S,
    events: Seq<EventView<S, P>>,
)
    requires
        events.len() > 0,
        events[0] == EventView::<S, P>::SpiFailed(error),
    ensures
        issued(ProgressView::Pending(machine), events) == seq![machine.action()],
        run(ProgressView::Pending(machine), events) == ProgressView::<S, P>::Finished(
            Err(Error::SpiError(error)),
        ),
{
    reveal_with_fuel(issued, 2);
    reveal_with_fuel(run, 2);
    assert(issued(ProgressView::Pending(machine), events) =~= seq![machine.action()]);
}

/// A pin that cannot be driven ends an operation wherever it stands: the
/// pending action is the last one, and the outcome carries the pin's error.
pub proof fn pin_failure_ends_the_operation<S, P>(
    machine: MachineView,
    error: P,
    events: Seq<EventView<S, P>>,
)
    requires
        events.len() > 0,
        events[0] == EventView::<S, P>::PinFailed(error),
    ensures
        issued(ProgressView::Pending(machine), events) == seq![machine.action()],
        run(ProgressView::Pending(machine), events) == ProgressView::<S, P>::Finished(
            Err(Error::PinError(error)),
        ),
{
    reveal_with_fuel(issued, 2);
    reveal_with_fuel(run, 2);
    assert(issued(ProgressView::Pending(machine), events) =~= seq![machine.action()]);
}

/// A read succeeds exactly when its range ends within the chip. It then
/// consists of one exchange, the read command with the address, and gives
/// the bytes that the exchange read. Any other read fails as out of bounds
/// and nothing is sent.
pub proof fn read_is_bounded_by_capacity<M: FlashModel, S, P>(
    address: u32,
    length: nat,
    response: Seq<u8>,
    events: Seq<EventView<S, P>>,
)
    ensures
        address + length <= capacity::<M>() ==> {
            &&& issued(
                read_start::<M, S, P>(address, length),
                seq![EventView::Completed(response)],
            ) == seq![read_exchange(address, length)]
            &&& run(read_start::<M, S, P>(address, length), seq![EventView::Completed(response)])
                == ProgressView::<S, P>::Finished(Ok(response))
        },
        address + length > capacity::<M>() ==> {
            &&& issued(read_start::<M, S, P>(address, length), events) == Seq::<
                ActionView,
            >::empty()
            &&& run(read_start::<M, S, P>(address, length), events) == ProgressView::<
                S,
                P,
            >::Finished(Err(Error::OutOfBounds))
        },
{
    let start = read_start::<M, S, P>(address, length);
    if address + length <= capacity::<M>() {
        let events = seq![EventView::<S, P>::Completed(response)];
        assert(issued(start, events) =~= seq![read_exchange(address, length)]) by {
            reveal_with_fuel(issued, 2);
        }
        assert(run(start, events) == ProgressView::<S, P>::Finished(Ok(response))) by {
            reveal_with_fuel(run, 2);
        }
    }
}

/// Every byte that an accepted read asks for lies in the 24-bit address
/// space, and the frame carries the address of the first one without loss.
pub proof fn accepted_reads_are_addressable<M: FlashModel, S, P>(address: u32, length: nat)
    requires
        read_start::<M, S, P>(address, length) is Pending,
        length > 0,
    ensures
        address + length <= ADDRESS_SPACE,
        big_endian_24(address_bytes(address)) == address,
{
    M::geometry_is_valid();
    address_bytes_round_trip(address);
}

/// A sector or block erase starts only at a multiple of the unit's size:
/// 4096, 32768 and 65536 bytes where pages hold 256 bytes. At any other
/// address it fails as not aligned and nothing is sent. A chip erase starts
/// at any address.
pub proof fn erase_needs_an_aligned_address<M: FlashModel, S, P>(
    address: u32,
    granularity: Granularity,
    wait: Wait,
    events: Seq<EventView<S, P>>,
)
    ensures
        M::PAGE_SIZE == 256 ==> {
            &&& Granularity::Sector.spec_size::<M>() == 4096
            &&& Granularity::Block32K.spec_size::<M>() == 32768
            &&& Granularity::Block64K.spec_size::<M>() == 65536
        },
        granularity == Granularity::Chip || address as nat % granularity.spec_size::<M>() == 0
            <==> erase_start::<M, S, P>(address, granularity, wait) is Pending,
        erase_start::<M, S, P>(address, granularity, wait) !is Pending ==> {
            &&& issued(erase_start::<M, S, P>(address, granularity, wait), events) == Seq::<
                ActionView,
            >::empty()
            &&& run(erase_start::<M, S, P>(address, granularity, wait), events)
                == ProgressView::<S, P>::Finished(Err(Error::NotAligned))
        },
{
}

/// A program starts only where the data ends within the page that the
/// address lies in. Otherwise it fails as out of bounds or as not aligned
/// and nothing is sent.
pub proof fn program_stays_within_its_page<M: FlashModel, S, P>(
    address: u32,
    data: Seq<u8>,
    wait: Wait,
    readback: bool,
    events: Seq<EventView<S, P>>,
)
    ensures
        address % M::PAGE_SIZE + data.len() <= M::PAGE_SIZE <==> program_start::<M, S, P>(
            address,
            data,
            wait,
            readback,
        ) is Pending,
        address % M::PAGE_SIZE + data.len() > M::PAGE_SIZE ==> {
            &&& issued(program_start::<M, S, P>(address, data, wait, readback), events) == Seq::<
                ActionView,
            >::empty()
            &&& {
                ||| run(program_start::<M, S, P>(address, data, wait, readback), events)
                    == ProgressView::<S, P>::Finished(Err(Error::OutOfBounds))
                ||| run(program_start::<M, S, P>(address, data, wait, readback), events)
                    == ProgressView::<S, P>::Finished(Err(Error::NotAligned))
            }
        },
{
    M::geometry_is_valid();
}

/// A program or erase whose write-enable latch is not confirmed fails with
/// `WriteEnableFail` after the write-enable command and one status read. The
/// program or erase command is never sent.
pub proof fn unconfirmed_latch_ends_the_operation<S, P>(
    job: JobView,
    events: Seq<EventView<S, P>>,
)
    requires
        events.len() >= 2,
        events[0] is Completed,
        events[1] is Completed,
        !is_latch_answer(events[1]),
    ensures
        issued(ProgressView::Pending(MachineView::WriteEnableSent(job)), events) == seq![
            bare(Command::WriteEnable),
            status_read(),
        ],
        run(ProgressView::Pending(MachineView::WriteEnableSent(job)), events) == ProgressView::<
            S,
            P,
        >::Finished(Err(Error::WriteEnableFail)),
        job.frame != seq![Command::WriteEnable.opcode()] ==> !issued(
            ProgressView::Pending(MachineView::WriteEnableSent(job)),
            events,
        ).contains(command_exchange(job)),
{
    let start = ProgressView::<S, P>::Pending(MachineView::WriteEnableSent(job));
    let expected = seq![bare(Command::WriteEnable), status_read()];
    reveal_with_fuel(issued, 3);
    reveal_with_fuel(run, 3);
    assert(issued(start, events) =~= expected);
    if job.frame != seq![Command::WriteEnable.opcode()] {
        assert(expected[0] != command_exchange(job));
        assert(expected[1] != command_exchange(job));
    }
}

/// A program or erase that the driver accepted fails with `WriteEnableFail`
/// where the chip does not confirm the write-enable latch. Only the
/// write-enable command and one status read were sent by then; the program
/// or erase command never is.
pub proof fn program_and_erase_need_the_latch<M: FlashModel, S, P>(
    address: u32,
    data: Seq<u8>,
    granularity: Granularity,
    wait: Wait,
    readback: bool,
    events: Seq<EventView<S, P>>,
)
    requires
        events.len() >= 2,
        events[0] is Completed,
        events[1] is Completed,
        !is_latch_answer(events[1]),
    ensures
        program_start::<M, S, P>(address, data, wait, readback) is Pending ==> {
            &&& issued(program_start::<M, S, P>(address, data, wait, readback), events) == seq![
                bare(Command::WriteEnable),
                status_read(),
            ]
            &&& run(program_start::<M, S, P>(address, data, wait, readback), events)
                == ProgressView::<S, P>::Finished(Err(Error::WriteEnableFail))
            &&& !issued(program_start::<M, S, P>(address, data, wait, readback), events).contains(
                command_exchange(program_job(address, data, wait, readback)),
            )
        },
        erase_start::<M, S, P>(address, granularity, wait) is Pending ==> {
            &&& issued(erase_start::<M, S, P>(address, granularity, wait), events) == seq![
                bare(Command::WriteEnable),
                status_read(),
            ]
            &&& run(erase_start::<M, S, P>(address, granularity, wait), events) == ProgressView::<
                S,
                P,
            >::Finished(Err(Error::WriteEnableFail))
            &&& !issued(erase_start::<M, S, P>(address, granularity, wait), events).contains(
                command_exchange(erase_job(address, granularity, wait)),
            )
        },
{
    let programming = program_job(address, data, wait, readback);
    let erasing = erase_job(address, granularity, wait);
    assert(programming.frame[0] == Command::PageProgram.opcode());
    assert(erasing.frame[0] == granularity.command().opcode());
    unconfirmed_latch_ends_the_operation::<S, P>(programming, events);
    unconfirmed_latch_ends_the_operation::<S, P>(erasing, events);
}

/// Once the latch is confirmed the program or erase command goes out, as the
/// third exchange, and the operation starts to poll.
pub proof fn confirmed_latch_lets_the_command_out<S, P>(
    job: JobView,
    events: Seq<EventView<S, P>>,
)
    requires
        is_handshake(events),
    ensures
        issued(ProgressView::Pending(MachineView::WriteEnableSent(job)), events) == seq![
            bare(Command::WriteEnable),
            status_read(),
            command_exchange(job),
        ],
        run(ProgressView::Pending(MachineView::WriteEnableSent(job)), events) == ProgressView::<
            S,
            P,
        >::Pending(MachineView::Polling(job)),
{
    let start = ProgressView::<S, P>::Pending(MachineView::WriteEnableSent(job));
    reveal_with_fuel(issued, 4);
    reveal_with_fuel(run, 4);
    assert(issued(start, events) =~= seq![
        bare(Command::WriteEnable),
        status_read(),
        command_exchange(job),
    ]);
}

/// A poll that does not yield and gets `k` busy answers before the chip
/// shows idle reads the status exactly `k + 1` times, does nothing else, and
/// then goes on.
pub proof fn spinning_poll_reads_once_per_answer<S, P>(
    job: JobView,
    events: Seq<EventView<S, P>>,
)
    requires
        job.wait == Wait::Spin,
        is_spinning_poll(events),
    ensures
        issued(ProgressView::Pending(MachineView::Polling(job)), events) == Seq::new(
            events.len(),
            |i: int| status_read(),
        ),
        run(ProgressView::Pending(MachineView::Polling(job)), events) == settled::<S, P>(job),
    decreases events.len(),
{
    let start = ProgressView::<S, P>::Pending(MachineView::Polling(job));
    let rest = events.drop_first();
    reveal_with_fuel(issued, 2);
    reveal_with_fuel(run, 2);
    if events.len() > 1 {
        assert(is_busy_answer(events[0]));
        assert forall|i: int| 0 <= i < rest.len() - 1 implies is_busy_answer(
            #[trigger] rest[i],
        ) by {
            assert(rest[i] == events[i + 1]);
        }
        assert(rest.last() == events.last());
        spinning_poll_reads_once_per_answer(job, rest);
    }
    assert(issued(start, events) =~= Seq::new(events.len(), |i: int| status_read()));
}

/// A poll that yields suspends once after each busy answer and nowhere
/// else: with `k` busy answers it reads the status `k + 1` times and yields
/// `k` times in between. When it is resumed it reads the status again; it
/// does not start over.
pub proof fn yielding_poll_suspends_once_per_busy_answer<S, P>(
    job: JobView,
    events: Seq<EventView<S, P>>,
)
    requires
        job.wait == Wait::Yield,
        is_yielding_poll(events),
    ensures
        issued(ProgressView::Pending(MachineView::Polling(job)), events) == Seq::new(
            events.len(),
            |i: int|
                if i % 2 == 0 {
                    status_read()
                } else {
                    ActionView::Yield
                },
        ),
        run(ProgressView::Pending(MachineView::Polling(job)), events) == settled::<S, P>(job),
    decreases events.len(),
{
    let start = ProgressView::<S, P>::Pending(MachineView::Polling(job));
    let expected = Seq::new(
        events.len(),
        |i: int|
            if i % 2 == 0 {
                status_read()
            } else {
                ActionView::Yield
            },
    );
    if events.len() > 1 {
        let rest = events.drop_first().drop_first();
        assert(is_busy_answer(events[0]));
        assert(events[1] is Completed);
        assert forall|i: int| 0 <= i < rest.len() - 1 implies if i % 2 == 0 {
            is_busy_answer(#[trigger] rest[i])
        } else {
            rest[i] is Completed
        } by {
            assert(rest[i] == events[i + 2]);
        }
        assert(rest.last() == events.last());
        yielding_poll_suspends_once_per_busy_answer(job, rest);
        reveal_with_fuel(issued, 3);
        reveal_with_fuel(run, 3);
        assert(issued(start, events) =~= expected);
    } else {
        reveal_with_fuel(issued, 2);
        reveal_with_fuel(run, 2);
        assert(issued(start, events) =~= expected);
    }
}

/// A poll gives up on nothing but a failure: while every answer is busy, a
/// poll that does not yield is still polling, however many answers came.
pub proof fn busy_poll_keeps_polling<S, P>(job: JobView, events: Seq<EventView<S, P>>)
    requires
        job.wait == Wait::Spin,
        forall|i: int| 0 <= i < events.len() ==> is_busy_answer(#[trigger] events[i]),
    ensures
        issued(ProgressView::Pending(MachineView::Polling(job)), events) == Seq::new(
            events.len(),
            |i: int| status_read(),
        ),
        run(ProgressView::Pending(MachineView::Polling(job)), events) == ProgressView::<
            S,
            P,
        >::Pending(MachineView::Polling(job)),
    decreases events.len(),
{
    let start = ProgressView::<S, P>::Pending(MachineView::Polling(job));
    if events.len() > 0 {
        let rest = events.drop_first();
        assert(is_busy_answer(events[0]));
        assert forall|i: int| 0 <= i < rest.len() implies is_busy_answer(#[trigger] rest[i]) by {
            assert(rest[i] == events[i + 1]);
        }
        busy_poll_keeps_polling(job, rest);
    }
    assert(issued(start, events) =~= Seq::new(events.len(), |i: int| status_read()));
}

/// An operation suspends at one point only: a machine asks to yield exactly
/// when it is suspended, and it gets there only from a poll that yields and
/// was answered busy. No exchange is ever interrupted.
pub proof fn only_a_busy_poll_suspends<S, P>(machine: MachineView, event: EventView<S, P>)
    ensures
        machine.action() is Yield <==> machine is Suspended,
        machine.next(event) matches ProgressView::Pending(MachineView::Suspended(job)) ==> {
            &&& machine == MachineView::Polling(job)
            &&& job.wait == Wait::Yield
            &&& is_busy_answer(event)
        },
{
}

/// A program or erase whose latch is confirmed, on a driver that does not
/// yield: the write-enable command, one status read, the command, and one
/// status read for each answer of the poll. Then the chip is idle and the
/// operation is over, but for a readback.
pub proof fn confirmed_operation_runs_to_idle<S, P>(
    job: JobView,
    handshake: Seq<EventView<S, P>>,
    poll: Seq<EventView<S, P>>,
)
    requires
        job.wait == Wait::Spin,
        is_handshake(handshake),
        is_spinning_poll(poll),
    ensures
        issued(ProgressView::Pending(MachineView::WriteEnableSent(job)), handshake + poll) == seq![
            bare(Command::WriteEnable),
            status_read(),
            command_exchange(job),
        ] + Seq::new(poll.len(), |i: int| status_read()),
        run(ProgressView::Pending(MachineView::WriteEnableSent(job)), handshake + poll)
            == settled::<S, P>(job),
{
    let start = ProgressView::<S, P>::Pending(MachineView::WriteEnableSent(job));
    confirmed_latch_lets_the_command_out(job, handshake);
    spinning_poll_reads_once_per_answer(job, poll);
    runs_compose(start, handshake, poll);
}

/// The readback of a program decides its outcome: the operation succeeds
/// where the bytes read are the bytes written, and fails with `ReadbackFail`
/// where they differ in any way.
pub proof fn readback_decides_the_outcome<S, P>(readback: ReadbackView, response: Seq<u8>)
    ensures
        issued(
            ProgressView::<S, P>::Pending(MachineView::Verifying(readback)),
            seq![EventView::Completed(response)],
        ) == seq![read_exchange(readback.address, readback.data.len())],
        run(
            ProgressView::<S, P>::Pending(MachineView::Verifying(readback)),
            seq![EventView::Completed(response)],
        ) == if response == readback.data {
            ProgressView::<S, P>::Finished(Ok(Seq::empty()))
        } else {
            ProgressView::<S, P>::Finished(Err(Error::ReadbackFail))
        },
{
    let start = ProgressView::<S, P>::Pending(MachineView::Verifying(readback));
    let events = seq![EventView::<S, P>::Completed(response)];
    reveal_with_fuel(issued, 2);
    reveal_with_fuel(run, 2);
    assert(issued(start, events) =~= seq![read_exchange(readback.address, readback.data.len())]);
}

/// A program with readback that the chip accepted and finished still fails
/// with `ReadbackFail` where the bytes read back differ from the data, and
/// succeeds where they are the same. The readback is one more exchange after
/// the poll: a read of the data's length at the address programmed.
pub proof fn verified_program_ends_with_the_readback<M: FlashModel, S, P>(
    address: u32,
    data: Seq<u8>,
    handshake: Seq<EventView<S, P>>,
    poll: Seq<EventView<S, P>>,
    response: Seq<u8>,
)
    requires
        address % M::PAGE_SIZE + data.len() <= M::PAGE_SIZE,
        is_handshake(handshake),
        is_spinning_poll(poll),
    ensures
        issued(
            program_start::<M, S, P>(address, data, Wait::Spin, true),
            handshake + poll + seq![EventView::Completed(response)],
        ) == seq![
            bare(Command::WriteEnable),
            status_read(),
            ActionView::Exchange {
                out: frame(Command::PageProgram.opcode(), address) + data,
                read_len: 0,
            },
        ] + Seq::new(poll.len(), |i: int| status_read()) + seq![
            read_exchange(address, data.len()),
        ],
        run(
            program_start::<M, S, P>(address, data, Wait::Spin, true),
            handshake + poll + seq![EventView::Completed(response)],
        ) == if response == data {
            ProgressView::<S, P>::Finished(Ok(Seq::empty()))
        } else {
            ProgressView::<S, P>::Finished(Err(Error::ReadbackFail))
        },
{
    M::geometry_is_valid();
    let job = program_job(address, data, Wait::Spin, true);
    let start = program_start::<M, S, P>(address, data, Wait::Spin, true);
    let readback = ReadbackView { address, data };
    assert(start == ProgressView::<S, P>::Pending(MachineView::WriteEnableSent(job)));
    confirmed_operation_runs_to_idle(job, handshake, poll);
    readback_decides_the_outcome::<S, P>(readback, response);
    runs_compose(start, handshake + poll, seq![EventView::Completed(response)]);
}

/// A reset is the enable-reset command followed by the reset command.
pub proof fn reset_sends_its_pair<S, P>(first: Seq<u8>, second: Seq<u8>)
    ensures
        issued(
            ProgressView::<S, P>::Pending(MachineView::ResetEnabled),
            seq![EventView::Completed(first), EventView::Completed(second)],
        ) == seq![bare(Command::EnableReset), bare(Command::Reset)],
        run(
            ProgressView::<S, P>::Pending(MachineView::ResetEnabled),
            seq![EventView::Completed(first), EventView::Completed(second)],
        ) == ProgressView::<S, P>::Finished(Ok(second)),
{
    let start = ProgressView::<S, P>::Pending(MachineView::ResetEnabled);
    let events = seq![EventView::<S, P>::Completed(first), EventView::Completed(second)];
    reveal_with_fuel(issued, 3);
    reveal_with_fuel(run, 3);
    assert(issued(start, events) =~= seq![bare(Command::EnableReset), bare(Command::Reset)]);
}

/// Releasing the pins drives the hold line high and then the write-protect
/// line. Where the hold line cannot be driven, the write-protect line is
/// left alone and the outcome carries the pin's error.
pub proof fn pins_are_released_in_order<S, P>(error: P)
    ensures
        issued(
            ProgressView::<S, P>::Pending(
                MachineView::DrivingPin {
                    pin: Pin::Hold,
                    level: Level::High,
                    then: Some(Pin::WriteProtect),
                },
            ),
            seq![EventView::Completed(Seq::empty()), EventView::Completed(Seq::empty())],
        ) == seq![
            ActionView::SetPin { pin: Pin::Hold, level: Level::High },
            ActionView::SetPin { pin: Pin::WriteProtect, level: Level::High },
        ],
        run(
            ProgressView::<S, P>::Pending(
                MachineView::DrivingPin {
                    pin: Pin::Hold,
                    level: Level::High,
                    then: Some(Pin::WriteProtect),
                },
            ),
            seq![EventView::Completed(Seq::empty()), EventView::Completed(Seq::empty())],
        ) == ProgressView::<S, P>::Finished(Ok(Seq::empty())),
        issued(
            ProgressView::<S, P>::Pending(
                MachineView::DrivingPin {
                    pin: Pin::Hold,
                    level: Level::High,
                    then: Some(Pin::WriteProtect),
                },
            ),
            seq![EventView::PinFailed(error)],
        ) == seq![ActionView::SetPin { pin: Pin::Hold, level: Level::High }],
        run(
            ProgressView::<S, P>::Pending(
                MachineView::DrivingPin {
                    pin: Pin::Hold,
                    level: Level::High,
                    then: Some(Pin::WriteProtect),
                },
            ),
            seq![EventView::PinFailed(error)],
        ) == ProgressView::<S, P>::Finished(Err(Error::PinError(error))),
{
    let start = ProgressView::<S, P>::Pending(
        MachineView::DrivingPin { pin: Pin::Hold, level: Level::High, then: Some(Pin::WriteProtect) },
    );
    let both = seq![
        EventView::<S, P>::Completed(Seq::empty()),
        EventView::Completed(Seq::empty()),
    ];
    let failed = seq![EventView::<S, P>::PinFailed(error)];
    reveal_with_fuel(issued, 3);
    reveal_with_fuel(run, 3);
    assert(issued(start, both) =~= seq![
        ActionView::SetPin { pin: Pin::Hold, level: Level::High },
        ActionView::SetPin { pin: Pin::WriteProtect, level: Level::High },
    ]);
    assert(issued(start, failed) =~= seq![
        ActionView::SetPin { pin: Pin::Hold, level: Level::High },
    ]);
}

} // verus!
