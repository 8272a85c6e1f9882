use w25q::models::{FlashModel, W25Q32};
use w25q::protocol::{Action, Event, Progress, Wait};
use w25q::{Error, Granularity, W25Q};

/// A chip that answers exchanges as the real one would: it keeps a memory,
/// a write-enable latch and a busy period after each program or erase.
struct Chip {
    memory: Vec<u8>,
    latch: bool,
    latch_works: bool,
    busy_reads_left: usize,
    busy_reads_after_write: usize,
    flip_on_program: bool,
    status_reads: usize,
    yields: usize,
    exchanges: Vec<Vec<u8>>,
}

impl Chip {
    fn new(busy_reads_after_write: usize) -> Chip {
        Chip {
            memory: vec![0xFF; W25Q32::capacity() as usize],
            latch: false,
            latch_works: true,
            busy_reads_left: 0,
            busy_reads_after_write,
            flip_on_program: false,
            status_reads: 0,
            yields: 0,
            exchanges: Vec::new(),
        }
    }

    fn address(out: &[u8]) -> usize {
        ((out[1] as usize) << 16) | ((out[2] as usize) << 8) | (out[3] as usize)
    }

    fn start_write(&mut self) {
        assert!(self.latch, "a program or erase arrived without the latch");
        self.latch = false;
        self.busy_reads_left = self.busy_reads_after_write;
    }

    fn erase(&mut self, from: usize, length: usize) {
        self.start_write();
        for byte in &mut self.memory[from..from + length] {
            *byte = 0xFF;
        }
    }

    fn exchange(&mut self, out: &[u8], read_len: usize) -> Vec<u8> {
        self.exchanges.push(out.to_vec());
        match out[0] {
            0x06 => {
                self.latch = self.latch_works;
                vec![]
            }
            0x05 => {
                self.status_reads += 1;
                let busy = self.busy_reads_left > 0;
                if busy {
                    self.busy_reads_left -= 1;
                }
                vec![(busy as u8) | ((self.latch as u8) << 1)]
            }
            0x02 => {
                self.start_write();
                let at = Chip::address(out);
                for (i, byte) in out[4..].iter().enumerate() {
                    self.memory[at + i] &= *byte;
                    if self.flip_on_program {
                        self.memory[at + i] ^= 0x80;
                    }
                }
                vec![]
            }
            0x03 => {
                let at = Chip::address(out);
                self.memory[at..at + read_len].to_vec()
            }
            0x20 => {
                self.erase(Chip::address(out), 4096);
                vec![]
            }
            0x52 => {
                self.erase(Chip::address(out), 32768);
                vec![]
            }
            0xD8 => {
                self.erase(Chip::address(out), 65536);
                vec![]
            }
            0xC7 => {
                let all = self.memory.len();
                self.erase(0, all);
                vec![]
            }
            0x4B => {
                assert_eq!(out.len(), 5);
                vec![1, 2, 3, 4, 5, 6, 7, 8]
            }
            other => panic!("the chip does not know opcode {:#04x}", other),
        }
    }

    /// Carries an operation through, as the owner of the bus does.
    fn run(&mut self, mut progress: Progress<(), ()>) -> Result<Vec<u8>, Error<(), ()>> {
        loop {
            let machine = match progress {
                Progress::Finished(outcome) => return outcome,
                Progress::Pending(machine) => machine,
            };
            let event = match machine.action() {
                Action::Exchange { out, read_len } => {
                    let read = self.exchange(&out, read_len);
                    assert_eq!(read.len(), read_len);
                    Event::Completed(read)
                }
                Action::Yield => {
                    self.yields += 1;
                    Event::Completed(vec![])
                }
                Action::SetPin { .. } => Event::Completed(vec![]),
            };
            progress = machine.advance(event);
        }
    }
}

#[test]
fn programmed_bytes_can_be_read_back() {
    let driver = W25Q::new(W25Q32, ());
    let mut chip = Chip::new(3);
    assert_eq!(chip.run(driver.program(0x001234, &[0xDE, 0xAD, 0xBE, 0xEF])), Ok(vec![]));
    assert_eq!(chip.run(driver.read(0x001234, 4)), Ok(vec![0xDE, 0xAD, 0xBE, 0xEF]));
    assert_eq!(chip.run(driver.read(0x001232, 8)), Ok(vec![0xFF, 0xFF, 0xDE, 0xAD, 0xBE, 0xEF, 0xFF, 0xFF]));
}

#[test]
fn erased_sector_reads_as_all_ones() {
    let driver = W25Q::new(W25Q32, ());
    let mut chip = Chip::new(2);
    assert_eq!(chip.run(driver.program(0x002000, &[0, 1, 2, 3])), Ok(vec![]));
    assert_eq!(chip.run(driver.program(0x003000, &[4, 5, 6, 7])), Ok(vec![]));
    assert_eq!(chip.run(driver.erase(0x002000, Granularity::Sector)), Ok(vec![]));
    assert_eq!(chip.run(driver.read(0x002000, 4)), Ok(vec![0xFF; 4]));
    assert_eq!(chip.run(driver.read(0x003000, 4)), Ok(vec![4, 5, 6, 7]));
}

#[test]
fn chip_erase_clears_everything() {
    let driver = W25Q::new(W25Q32, ());
    let mut chip = Chip::new(1);
    assert_eq!(chip.run(driver.program(0, &[0])), Ok(vec![]));
    assert_eq!(chip.run(driver.program(0x3FFFFF, &[0])), Ok(vec![]));
    assert_eq!(chip.run(driver.erase(0x000123, Granularity::Chip)), Ok(vec![]));
    assert_eq!(chip.run(driver.read(0, 1)), Ok(vec![0xFF]));
    assert_eq!(chip.run(driver.read(0x3FFFFF, 1)), Ok(vec![0xFF]));
}

#[test]
fn status_is_read_once_for_the_latch_and_once_more_than_busy() {
    for k in [0usize, 1, 4, 32] {
        let driver = W25Q::new(W25Q32, ());
        let mut chip = Chip::new(k);
        assert_eq!(chip.run(driver.erase(0, Granularity::Block64K)), Ok(vec![]));
        assert_eq!(chip.status_reads, 1 + k + 1);
        assert_eq!(chip.yields, 0);
    }
}

#[test]
fn suspending_driver_yields_once_per_busy_answer() {
    for k in [0usize, 1, 4, 32] {
        let driver = W25Q::new(W25Q32, ()).with_wait(Wait::Yield);
        let mut chip = Chip::new(k);
        assert_eq!(chip.run(driver.program(0x100, &[1, 2, 3])), Ok(vec![]));
        assert_eq!(chip.status_reads, 1 + k + 1);
        assert_eq!(chip.yields, k);
        assert_eq!(chip.run(driver.read(0x100, 3)), Ok(vec![1, 2, 3]));
    }
}

#[test]
fn dead_latch_keeps_the_memory_untouched() {
    let driver = W25Q::new(W25Q32, ());
    let mut chip = Chip::new(0);
    chip.latch_works = false;
    assert_eq!(chip.run(driver.program(0x40, &[0, 0])), Err(Error::WriteEnableFail));
    assert_eq!(chip.run(driver.erase(0, Granularity::Chip)), Err(Error::WriteEnableFail));
    assert_eq!(chip.exchanges, vec![vec![0x06], vec![0x05], vec![0x06], vec![0x05]]);
    assert_eq!(chip.run(driver.read(0x40, 2)), Ok(vec![0xFF, 0xFF]));
}

#[test]
fn readback_catches_a_chip_that_stores_something_else() {
    let driver = W25Q::new(W25Q32, ()).with_readback(true);
    let mut chip = Chip::new(2);
    assert_eq!(chip.run(driver.program(0x500, &[0x11, 0x22])), Ok(vec![]));
    chip.flip_on_program = true;
    assert_eq!(chip.run(driver.program(0x600, &[0x11, 0x22])), Err(Error::ReadbackFail));
    assert_eq!(chip.exchanges.last(), Some(&vec![0x03, 0x00, 0x06, 0x00]));
}

#[test]
fn readback_catches_bits_that_were_not_erased() {
    let driver = W25Q::new(W25Q32, ()).with_readback(true);
    let mut chip = Chip::new(0);
    assert_eq!(chip.run(driver.program(0x700, &[0x0F])), Ok(vec![]));
    assert_eq!(chip.run(driver.program(0x700, &[0xF0])), Err(Error::ReadbackFail));
    assert_eq!(chip.run(driver.read(0x700, 1)), Ok(vec![0x00]));
}

#[test]
fn refused_requests_never_reach_the_chip() {
    let driver = W25Q::new(W25Q32, ());
    let mut chip = Chip::new(0);
    assert_eq!(chip.run(driver.read(4194304, 1)), Err(Error::OutOfBounds));
    assert_eq!(chip.run(driver.program(0xFF, &[1, 2])), Err(Error::NotAligned));
    assert_eq!(chip.run(driver.program(0, &[0u8; 257])), Err(Error::OutOfBounds));
    assert_eq!(chip.run(driver.erase(2048, Granularity::Sector)), Err(Error::NotAligned));
    assert_eq!(chip.run(driver.erase(4096, Granularity::Block32K)), Err(Error::NotAligned));
    assert_eq!(chip.run(driver.erase(32768, Granularity::Block64K)), Err(Error::NotAligned));
    assert!(chip.exchanges.is_empty());
}

#[test]
fn unique_id_is_read_in_one_exchange() {
    let driver = W25Q::new(W25Q32, ());
    let mut chip = Chip::new(0);
    assert_eq!(chip.run(driver.unique_id()), Ok(vec![1, 2, 3, 4, 5, 6, 7, 8]));
    assert_eq!(chip.exchanges, vec![vec![0x4B, 0, 0, 0, 0]]);
}

#[test]
fn full_page_program_fills_the_page_and_no_more() {
    let driver = W25Q::new(W25Q32, ()).with_readback(true);
    let mut chip = Chip::new(1);
    let page: Vec<u8> = (0..=255).collect();
    assert_eq!(chip.run(driver.program(0x000300, &page)), Ok(vec![]));
    assert_eq!(chip.run(driver.read(0x000300, 256)), Ok(page));
    assert_eq!(chip.run(driver.read(0x0002FF, 1)), Ok(vec![0xFF]));
    assert_eq!(chip.run(driver.read(0x000400, 1)), Ok(vec![0xFF]));
}
