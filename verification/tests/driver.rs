use dw3000_ng::header::decode_header;
use dw3000_ng::hl::receiving::{rx_poll, RxPoll};
use dw3000_ng::hl::Session;
use dw3000_ng::status;
use dw3000_ng::{
    Config, DoubleBufferReceiving, Error, Instant, Message, Poll, Ready, ReceiveTime, Receiving,
    Reply, SendTime, Sending, Step, Transaction, Transition, DW3000,
};

const SYS_CFG: (u8, u8) = (0x00, 0x10);
const FF_CFG: (u8, u8) = (0x00, 0x14);
const TX_FCTRL: (u8, u8) = (0x00, 0x24);
const DX_TIME: (u8, u8) = (0x00, 0x2c);
const SYS_STATUS: (u8, u8) = (0x00, 0x44);
const RX_FINFO: (u8, u8) = (0x00, 0x4c);
const RX_TIME: (u8, u8) = (0x00, 0x64);
const SYS_STATE: (u8, u8) = (0x0f, 0x30);
const RX_BUFFER_0: (u8, u8) = (0x12, 0x00);
const TX_BUFFER: (u8, u8) = (0x14, 0x00);

const VALID_FRAME: [u8; 12] = [
    0x41, 0x88, 0x07, 0xcd, 0xab, 0x02, 0x00, 0x01, 0x00, 0xde, 0xad, 0xbe,
];

/// A simulated chip: a register file behind the bus, with a log of what the
/// bus carried.
struct Chip {
    registers: Vec<((u8, u8), Vec<u8>)>,
    commands: Vec<u8>,
    writes: Vec<((u8, u8), Vec<u8>)>,
    reads: Vec<(u8, u8)>,
    fail_on: Option<usize>,
    performed: usize,
}

impl Chip {
    fn new() -> Chip {
        Chip {
            registers: Vec::new(),
            commands: Vec::new(),
            writes: Vec::new(),
            reads: Vec::new(),
            fail_on: None,
            performed: 0,
        }
    }

    fn set(&mut self, address: (u8, u8), bytes: &[u8]) {
        self.registers.retain(|(held, _)| *held != address);
        self.registers.push((address, bytes.to_vec()));
    }

    fn set_word(&mut self, address: (u8, u8), word: u64, len: usize) {
        self.set(address, &word.to_le_bytes()[..len]);
    }

    fn get(&self, address: (u8, u8)) -> Vec<u8> {
        for (held, bytes) in &self.registers {
            if *held == address {
                return bytes.clone();
            }
        }
        Vec::new()
    }

    fn perform(&mut self, transaction: &Transaction) -> Reply<u8> {
        let index = self.performed;
        self.performed += 1;
        if self.fail_on == Some(index) {
            return Err(0x5a);
        }
        if transaction.write.len() == 1 {
            assert_eq!(transaction.read_len, 0);
            self.commands.push(transaction.write[0]);
            return Ok(Vec::new());
        }
        let (id, sub_id, write) = decode_header(&transaction.write).unwrap();
        if write {
            assert_eq!(transaction.read_len, 0);
            let bytes = transaction.write[2..].to_vec();
            self.writes.push(((id, sub_id), bytes.clone()));
            self.set((id, sub_id), &bytes);
            Ok(Vec::new())
        } else {
            assert_eq!(transaction.write.len(), 2);
            self.reads.push((id, sub_id));
            let mut bytes = self.get((id, sub_id));
            bytes.resize(transaction.read_len, 0);
            Ok(bytes)
        }
    }

    fn bus_writes(&self) -> usize {
        self.commands.len() + self.writes.len()
    }
}

fn idle() -> DW3000<(), Ready> {
    DW3000::new(())
}

fn run_receive(
    chip: &mut Chip,
    handle: DW3000<(), Ready>,
    recv_time: ReceiveTime,
    config: Config,
) -> Result<DW3000<(), Receiving>, (DW3000<(), Ready>, Error<u8>)> {
    let mut handle = handle;
    let mut replies: Vec<Reply<u8>> = Vec::new();
    loop {
        match handle.receive_delayed(recv_time, config, &replies) {
            Transition::Bus(same, transaction) => {
                handle = same;
                replies.push(chip.perform(&transaction));
            }
            Transition::Done(next) => return Ok(next),
            Transition::Failed(same, error) => return Err((same, error)),
        }
    }
}

fn run_send(
    chip: &mut Chip,
    handle: DW3000<(), Ready>,
    data: &[u8],
    send_time: SendTime,
    config: Config,
) -> Result<DW3000<(), Sending>, (DW3000<(), Ready>, Error<u8>)> {
    let mut handle = handle;
    let mut replies: Vec<Reply<u8>> = Vec::new();
    loop {
        match handle.send(data, send_time, config, &replies) {
            Transition::Bus(same, transaction) => {
                handle = same;
                replies.push(chip.perform(&transaction));
            }
            Transition::Done(next) => return Ok(next),
            Transition::Failed(same, error) => return Err((same, error)),
        }
    }
}

fn run_s_wait(chip: &mut Chip, handle: &mut DW3000<(), Sending>) -> Poll<(), u8> {
    let mut replies: Vec<Reply<u8>> = Vec::new();
    loop {
        match handle.s_wait(&replies) {
            Step::Bus(transaction) => replies.push(chip.perform(&transaction)),
            Step::Done(poll) => return poll,
        }
    }
}

fn run_r_wait_buf(
    chip: &mut Chip,
    handle: &mut DW3000<(), Receiving>,
    buffer: &mut [u8],
) -> Poll<(usize, Instant), u8> {
    let mut replies: Vec<Reply<u8>> = Vec::new();
    loop {
        match handle.r_wait_buf(&replies, buffer) {
            Step::Bus(transaction) => replies.push(chip.perform(&transaction)),
            Step::Done(poll) => return poll,
        }
    }
}

fn gather_rx_replies(chip: &mut Chip, capacity: usize) -> Vec<Reply<u8>> {
    let mut replies: Vec<Reply<u8>> = Vec::new();
    loop {
        match rx_poll(&replies, capacity) {
            RxPoll::Bus(transaction) => replies.push(chip.perform(&transaction)),
            _ => return replies,
        }
    }
}

fn run_finish_receiving(
    chip: &mut Chip,
    handle: DW3000<(), Receiving>,
) -> Result<DW3000<(), Ready>, (DW3000<(), Receiving>, Error<u8>)> {
    let mut handle = handle;
    let mut replies: Vec<Reply<u8>> = Vec::new();
    loop {
        match handle.finish_receiving(&replies) {
            Transition::Bus(same, transaction) => {
                handle = same;
                replies.push(chip.perform(&transaction));
            }
            Transition::Done(next) => return Ok(next),
            Transition::Failed(same, error) => return Err((same, error)),
        }
    }
}

fn run_finish_sending(
    chip: &mut Chip,
    handle: DW3000<(), Sending>,
) -> Result<DW3000<(), Ready>, (DW3000<(), Sending>, Error<u8>)> {
    let mut handle = handle;
    let mut replies: Vec<Reply<u8>> = Vec::new();
    loop {
        match handle.finish_sending(&replies) {
            Transition::Bus(same, transaction) => {
                handle = same;
                replies.push(chip.perform(&transaction));
            }
            Transition::Done(next) => return Ok(next),
            Transition::Failed(same, error) => return Err((same, error)),
        }
    }
}

fn receiving(chip: &mut Chip) -> DW3000<(), Receiving> {
    let config = Config { frame_filtering: false };
    run_receive(chip, idle(), ReceiveTime::Now, config).unwrap()
}

fn chip_with_frame(frame: &[u8], rx_time: u64) -> Chip {
    let mut chip = Chip::new();
    chip.set_word(SYS_STATUS, status::RXFCG | status::RXFR | status::CIAERR, 6);
    chip.set_word(RX_TIME, rx_time, 8);
    chip.set_word(RX_FINFO, frame.len() as u64, 4);
    chip.set(RX_BUFFER_0, frame);
    chip
}

#[test]
fn receive_without_filtering_issues_the_exact_transactions() {
    let mut chip = Chip::new();
    chip.set(SYS_CFG, &[0x89, 0x10, 0x04, 0x00]);
    let handle = run_receive(&mut chip, idle(), ReceiveTime::Now, Config { frame_filtering: false })
        .unwrap();
    assert!(!handle.state().is_finished());
    assert_eq!(chip.reads, vec![SYS_CFG]);
    assert_eq!(chip.writes, vec![(SYS_CFG, vec![0x88, 0x10, 0x04, 0x00])]);
    assert_eq!(chip.commands, vec![0x85]);
}

#[test]
fn receive_with_filtering_enables_the_filter() {
    let mut chip = Chip::new();
    chip.set(SYS_CFG, &[0x88, 0x10, 0x04, 0x00]);
    chip.set(FF_CFG, &[0x40, 0x02]);
    run_receive(&mut chip, idle(), ReceiveTime::Now, Config { frame_filtering: true }).unwrap();
    assert_eq!(chip.reads, vec![SYS_CFG, FF_CFG]);
    assert_eq!(
        chip.writes,
        vec![(SYS_CFG, vec![0x89, 0x10, 0x04, 0x00]), (FF_CFG, vec![0x4f, 0x02])]
    );
    assert_eq!(chip.commands, vec![0x85]);
}

#[test]
fn delayed_receive_programs_the_delay_register() {
    let mut chip = Chip::new();
    chip.set(DX_TIME, &[0xff, 0xff, 0xff, 0xff]);
    let time = Instant::new(0x12_3456_7800).unwrap();
    run_receive(
        &mut chip,
        idle(),
        ReceiveTime::Delayed(time),
        Config { frame_filtering: false },
    )
    .unwrap();
    assert_eq!(chip.reads, vec![SYS_CFG, DX_TIME]);
    assert_eq!(chip.writes[1], (DX_TIME, vec![0x78, 0x56, 0x34, 0x12]));
    assert_eq!(chip.commands, vec![0x89]);
}

#[test]
fn delay_of_512_is_accepted() {
    let handle = idle();
    let time = Instant::new(1 << 9).unwrap();
    let replies: Vec<Reply<u8>> = Vec::new();
    match handle.receive_delayed(
        ReceiveTime::Delayed(time),
        Config { frame_filtering: false },
        &replies,
    ) {
        Transition::Bus(_, transaction) => {
            assert_eq!(transaction, Transaction { write: vec![0x00, 0x40], read_len: 4 })
        }
        other => panic!("expected a bus transaction, got {:?}", other),
    }
    let mut chip = Chip::new();
    run_receive(
        &mut chip,
        idle(),
        ReceiveTime::Delayed(time),
        Config { frame_filtering: false },
    )
    .unwrap();
    assert_eq!(chip.writes[1], (DX_TIME, vec![0x02, 0x00, 0x00, 0x00]));
}

#[test]
fn delay_of_513_is_rejected_before_any_write() {
    let mut chip = Chip::new();
    let time = Instant::new((1 << 9) + 1).unwrap();
    let result = run_receive(
        &mut chip,
        idle(),
        ReceiveTime::Delayed(time),
        Config { frame_filtering: true },
    );
    match result {
        Err((_, error)) => assert_eq!(error, Error::InvalidTimestampRounding),
        Ok(_) => panic!("a misaligned delay was accepted"),
    }
    assert_eq!(chip.performed, 0);
    assert_eq!(chip.bus_writes(), 0);

    let mut chip = Chip::new();
    let result = run_send(
        &mut chip,
        idle(),
        &[1, 2, 3],
        SendTime::Delayed(time),
        Config { frame_filtering: false },
    );
    match result {
        Err((_, error)) => assert_eq!(error, Error::InvalidTimestampRounding),
        Ok(_) => panic!("a misaligned delay was accepted"),
    }
    assert_eq!(chip.performed, 0);
}

#[test]
fn start_receiving_rejects_a_misaligned_delay_whatever_the_replies() {
    let mut chip = Chip::new();
    let handle = receiving(&mut chip);
    let time = Instant::new(0x1ff).unwrap();
    let replies: Vec<Reply<u8>> = vec![Ok(vec![0; 4]), Ok(vec![])];
    assert_eq!(
        handle.start_receiving(
            ReceiveTime::Delayed(time),
            Config { frame_filtering: false },
            &replies
        ),
        Step::Done(Err(Error::InvalidTimestampRounding))
    );
}

#[test]
fn rx_state_reads_the_receiver_state_field() {
    let mut chip = Chip::new();
    let handle = receiving(&mut chip);
    let replies: Vec<Reply<u8>> = Vec::new();
    assert_eq!(
        handle.rx_state(&replies),
        Step::Bus(Transaction { write: vec![0x1e, 0xc0], read_len: 4 })
    );
    let replies: Vec<Reply<u8>> = vec![Ok(vec![0x0f, 0xd2, 0x13, 0x00])];
    assert_eq!(handle.rx_state(&replies), Step::Done(Ok(0x12)));
    let replies: Vec<Reply<u8>> = vec![Err(4)];
    assert_eq!(handle.rx_state(&replies), Step::Done(Err(Error::Spi(4))));
    assert_eq!(decode_header(&[0x1e, 0xc0]), Some((SYS_STATE.0, SYS_STATE.1, false)));
}

#[test]
fn wait_is_pending_until_the_status_shows_a_frame() {
    let mut chip = Chip::new();
    let mut handle = receiving(&mut chip);
    let mut buffer = [0u8; 32];
    chip.set_word(SYS_STATUS, 0x02, 6);
    assert_eq!(run_r_wait_buf(&mut chip, &mut handle, &mut buffer), Poll::Pending);
    chip.set_word(SYS_STATUS, status::RXPRD | status::RXSFDD, 6);
    assert_eq!(run_r_wait_buf(&mut chip, &mut handle, &mut buffer), Poll::Pending);
    assert!(!handle.state().is_finished());
    assert_eq!(chip.writes.len(), 1);
    assert_eq!(buffer, [0u8; 32]);
}

#[test]
fn wait_reports_each_status_error() {
    let cases: [(u64, Error<u8>); 8] = [
        (status::RXFCE, Error::Fcs),
        (status::RXPHE, Error::Phy),
        (status::RXFSL, Error::ReedSolomon),
        (status::RXSTO, Error::SfdTimeout),
        (status::ARFE, Error::FrameFilteringRejection),
        (status::RXFTO, Error::FrameWaitTimeout),
        (status::RXOVRR, Error::Overrun),
        (status::RXPTO, Error::PreambleDetectionTimeout),
    ];
    for (mask, expected) in cases {
        let mut chip = Chip::new();
        let mut handle = receiving(&mut chip);
        chip.set_word(SYS_STATUS, mask | status::RXPRD, 6);
        let mut buffer = [0u8; 8];
        match run_r_wait_buf(&mut chip, &mut handle, &mut buffer) {
            Poll::Failed(error) => assert_eq!(error, expected),
            other => panic!("expected a failure, got {:?}", other),
        }
        assert!(!handle.state().is_finished());
        assert_eq!(chip.reads, vec![SYS_CFG, SYS_STATUS]);
    }
}

#[test]
fn wait_reports_fcs_before_sfd_timeout() {
    let mut chip = Chip::new();
    let mut handle = receiving(&mut chip);
    chip.set_word(SYS_STATUS, status::RXFCE | status::RXSTO, 6);
    let mut buffer = [0u8; 8];
    assert_eq!(
        run_r_wait_buf(&mut chip, &mut handle, &mut buffer),
        Poll::Failed(Error::Fcs)
    );
}

#[test]
fn wait_delivers_a_frame_despite_the_leading_edge_error() {
    let mut chip = chip_with_frame(&[9, 8, 7, 6, 5], 0x12_3456_789a);
    let mut handle = receiving(&mut chip);
    let mut buffer = [0xeeu8; 8];
    let poll = run_r_wait_buf(&mut chip, &mut handle, &mut buffer);
    assert_eq!(poll, Poll::Ready((5, Instant::new(0x12_3456_789a).unwrap())));
    assert_eq!(buffer, [9, 8, 7, 6, 5, 0xee, 0xee, 0xee]);
    assert!(handle.state().is_finished());
    assert_eq!(chip.reads, vec![SYS_CFG, SYS_STATUS, RX_TIME, RX_FINFO, RX_BUFFER_0]);
    assert_eq!(
        chip.writes[1],
        (SYS_STATUS, vec![0x00, 0xff, 0x37, 0x04, 0x01, 0x00])
    );
    assert_eq!(chip.writes.len(), 2);
}

#[test]
fn wait_takes_the_low_forty_bits_of_the_time_stamp() {
    let mut chip = chip_with_frame(&[1], 0xabcd_ef01_2345_6789);
    let mut handle = receiving(&mut chip);
    let mut buffer = [0u8; 4];
    let poll = run_r_wait_buf(&mut chip, &mut handle, &mut buffer);
    assert_eq!(poll, Poll::Ready((1, Instant::new(0x01_2345_6789).unwrap())));
}

#[test]
fn wait_takes_the_low_ten_bits_of_the_frame_length() {
    let mut chip = chip_with_frame(&[1, 2, 3], 5);
    chip.set_word(RX_FINFO, 0xffff_fc03, 4);
    let mut handle = receiving(&mut chip);
    let mut buffer = [0u8; 4];
    let poll = run_r_wait_buf(&mut chip, &mut handle, &mut buffer);
    assert_eq!(poll, Poll::Ready((3, Instant::new(5).unwrap())));
    assert_eq!(buffer, [1, 2, 3, 0]);
}

#[test]
fn wait_fails_on_a_buffer_that_is_too_small() {
    let mut chip = chip_with_frame(&[1, 2, 3, 4, 5, 6, 7, 8, 9, 10], 77);
    let mut handle = receiving(&mut chip);
    let mut buffer = [0xa5u8; 4];
    let poll = run_r_wait_buf(&mut chip, &mut handle, &mut buffer);
    assert_eq!(poll, Poll::Failed(Error::BufferTooSmall { required_len: 10 }));
    assert_eq!(buffer, [0xa5u8; 4]);
    assert!(!handle.state().is_finished());
}

#[test]
fn wait_accepts_a_buffer_of_exactly_the_frame_length() {
    let mut chip = chip_with_frame(&[1, 2, 3, 4], 1);
    let mut handle = receiving(&mut chip);
    let mut buffer = [0u8; 4];
    let poll = run_r_wait_buf(&mut chip, &mut handle, &mut buffer);
    assert_eq!(poll, Poll::Ready((4, Instant::new(1).unwrap())));
    assert_eq!(buffer, [1, 2, 3, 4]);
}

#[test]
fn wait_delivers_an_empty_frame() {
    let mut chip = chip_with_frame(&[], 3);
    let mut handle = receiving(&mut chip);
    let mut buffer: [u8; 0] = [];
    let poll = run_r_wait_buf(&mut chip, &mut handle, &mut buffer);
    assert_eq!(poll, Poll::Ready((0, Instant::new(3).unwrap())));
    assert!(handle.state().is_finished());
}

#[test]
fn wait_passes_a_bus_error_through() {
    for failing in 1..=5 {
        let mut chip = chip_with_frame(&[1, 2, 3], 9);
        let mut handle = receiving(&mut chip);
        chip.fail_on = Some(chip.performed + failing - 1);
        let mut buffer = [0u8; 4];
        let poll = run_r_wait_buf(&mut chip, &mut handle, &mut buffer);
        assert_eq!(poll, Poll::Failed(Error::Spi(0x5a)));
        assert_eq!(buffer, [0u8; 4]);
        assert!(!handle.state().is_finished());
    }
}

#[test]
fn wait_pads_a_short_buffer_reply_with_zero() {
    let mut chip = Chip::new();
    let mut handle = receiving(&mut chip);
    let replies: Vec<Reply<u8>> = vec![
        Ok(vec![0x00, 0x40]),
        Ok(vec![0x07]),
        Ok(vec![]),
        Ok(vec![0x04]),
        Ok(vec![0xaa, 0xbb]),
    ];
    let mut buffer = [0xffu8; 6];
    assert_eq!(
        handle.r_wait_buf(&replies, &mut buffer),
        Step::Done(Poll::Ready((4, Instant::new(7).unwrap())))
    );
    assert_eq!(buffer, [0xaa, 0xbb, 0x00, 0x00, 0xff, 0xff]);
}

#[test]
fn message_wait_delivers_a_mac_frame() {
    let mut chip = chip_with_frame(&VALID_FRAME, 0x10_0000);
    let mut handle = receiving(&mut chip);
    let replies = gather_rx_replies(&mut chip, 64);
    let mut buffer = [0u8; 64];
    match handle.r_wait_checked(&replies, &mut buffer) {
        Some(Step::Done(Poll::Ready(message))) => {
            assert_eq!(
                message,
                Message { rx_time: Instant::new(0x10_0000).unwrap(), frame: &VALID_FRAME }
            );
            let frame = smoltcp::wire::Ieee802154Frame::new_checked(message.frame).unwrap();
            assert_eq!(frame.sequence_number(), Some(0x07));
            assert_eq!(frame.payload(), Some(&[0xde, 0xad, 0xbe][..]));
        }
        other => panic!("expected a message, got {:?}", other),
    }
    assert!(handle.state().is_finished());
    assert_eq!(&buffer[..12], &VALID_FRAME);
}

#[test]
fn message_wait_through_the_unchecked_entry() {
    let mut chip = chip_with_frame(&VALID_FRAME, 42);
    let mut handle = receiving(&mut chip);
    let replies = gather_rx_replies(&mut chip, 16);
    assert!(smoltcp::wire::Ieee802154Frame::new_checked(&VALID_FRAME[..]).is_ok());
    let mut buffer = [0u8; 16];
    match handle.r_wait(&replies, &mut buffer) {
        Step::Done(Poll::Ready(message)) => {
            assert_eq!(message.rx_time.value(), 42);
            assert_eq!(message.frame, &VALID_FRAME);
        }
        other => panic!("expected a message, got {:?}", other),
    }
}

#[test]
fn message_wait_refuses_what_the_codec_refuses() {
    for frame in [&[0x41u8, 0x88][..], &[0x00, 0x30, 0x00, 0x00][..], &[0x41, 0x88, 0x07, 0xcd][..]] {
        let mut chip = chip_with_frame(frame, 42);
        let mut handle = receiving(&mut chip);
        let replies = gather_rx_replies(&mut chip, 16);
        let mut buffer = [0x11u8; 16];
        assert!(handle.r_wait_checked(&replies, &mut buffer).is_none());
        assert_eq!(buffer, [0x11u8; 16]);
        assert!(!handle.state().is_finished());
    }
}

#[test]
fn message_wait_steps_like_the_buffer_wait() {
    let mut chip = Chip::new();
    let mut handle = receiving(&mut chip);
    let mut buffer = [0u8; 16];
    let replies: Vec<Reply<u8>> = Vec::new();
    assert_eq!(
        handle.r_wait_checked(&replies, &mut buffer),
        Some(Step::Bus(Transaction { write: vec![0x01, 0x10], read_len: 6 }))
    );
    let replies: Vec<Reply<u8>> = vec![Ok(vec![0; 6])];
    assert_eq!(handle.r_wait_checked(&replies, &mut buffer), Some(Step::Done(Poll::Pending)));
    let replies: Vec<Reply<u8>> = vec![Ok(vec![0x00, 0x80, 0, 0, 0, 0])];
    assert_eq!(
        handle.r_wait_checked(&replies, &mut buffer),
        Some(Step::Done(Poll::Failed(Error::Fcs)))
    );
    let replies: Vec<Reply<u8>> = vec![Err(1)];
    assert_eq!(
        handle.r_wait(&replies, &mut buffer),
        Step::Done(Poll::Failed(Error::Spi(1)))
    );
}

#[test]
fn finish_after_a_delivered_frame_touches_no_bus() {
    let mut chip = chip_with_frame(&[1, 2], 9);
    let mut handle = receiving(&mut chip);
    let mut buffer = [0u8; 4];
    run_r_wait_buf(&mut chip, &mut handle, &mut buffer);
    assert!(handle.state().is_finished());
    let before = chip.performed;
    let replies: Vec<Reply<u8>> = Vec::new();
    match handle.finish_receiving(&replies) {
        Transition::Done(ready) => assert_eq!(ready.seq(), 0),
        other => panic!("expected the ready handle, got {:?}", other),
    }
    assert_eq!(chip.performed, before);
    assert_eq!(chip.commands, vec![0x85]);
}

#[test]
fn finish_of_a_running_receive_forces_idle() {
    let mut chip = Chip::new();
    let handle = receiving(&mut chip);
    let replies: Vec<Reply<u8>> = Vec::new();
    let handle = match handle.finish_receiving(&replies) {
        Transition::Bus(same, transaction) => {
            assert_eq!(transaction, Transaction { write: vec![0x81], read_len: 0 });
            same
        }
        other => panic!("expected a bus transaction, got {:?}", other),
    };
    let ready = run_finish_receiving(&mut chip, handle).unwrap();
    assert_eq!(chip.commands, vec![0x85, 0x81]);
    let again = run_receive(&mut chip, ready, ReceiveTime::Now, Config { frame_filtering: false });
    assert!(again.is_ok());
}

#[test]
fn finish_that_fails_gives_the_handle_back() {
    let mut chip = Chip::new();
    let handle = receiving(&mut chip);
    chip.fail_on = Some(chip.performed);
    let handle = match run_finish_receiving(&mut chip, handle) {
        Err((same, error)) => {
            assert_eq!(error, Error::Spi(0x5a));
            assert!(!same.state().is_finished());
            same
        }
        Ok(_) => panic!("the failed abort went unnoticed"),
    };
    chip.fail_on = None;
    assert!(run_finish_receiving(&mut chip, handle).is_ok());
}

#[test]
fn send_end_to_end() {
    let mut chip = Chip::new();
    chip.set(SYS_CFG, &[0x88, 0x10, 0x04, 0x00]);
    chip.set(TX_FCTRL, &[0x00, 0x1c, 0x00, 0x00, 0x00, 0x00]);
    let config = Config { frame_filtering: false };
    let mut sending =
        run_send(&mut chip, idle(), &[0xde, 0xad, 0xbe, 0xef], SendTime::Now, config).unwrap();
    assert_eq!(chip.commands, vec![0x83]);
    assert_eq!(
        chip.writes,
        vec![
            (SYS_CFG, vec![0x88, 0x10, 0x04, 0x00]),
            (TX_BUFFER, vec![0xde, 0xad, 0xbe, 0xef]),
            (TX_FCTRL, vec![0x06, 0x1c, 0x00, 0x00, 0x00, 0x00]),
        ]
    );

    chip.set_word(SYS_STATUS, 0x02, 6);
    assert_eq!(run_s_wait(&mut chip, &mut sending), Poll::Pending);
    chip.set_word(SYS_STATUS, 0x72, 6);
    assert_eq!(run_s_wait(&mut chip, &mut sending), Poll::Pending);
    assert!(!sending.state().is_finished());
    assert_eq!(chip.bus_writes(), 4);

    chip.set_word(SYS_STATUS, 0xf2, 6);
    assert_eq!(run_s_wait(&mut chip, &mut sending), Poll::Ready(()));
    assert!(sending.state().is_finished());
    assert_eq!(chip.writes[3], (SYS_STATUS, vec![0xf0, 0x00, 0x00, 0x00, 0x00, 0x00]));

    let ready = run_finish_sending(&mut chip, sending).unwrap();
    assert_eq!(ready.seq(), 0);
    assert_eq!(chip.commands, vec![0x83]);
    assert_eq!(chip.writes.len(), 4);
    assert_eq!(chip.bus_writes(), 5);
}

#[test]
fn delayed_send_uses_the_delayed_command() {
    let mut chip = Chip::new();
    let time = Instant::new(0x200).unwrap();
    let config = Config { frame_filtering: true };
    run_send(&mut chip, idle(), &[1], SendTime::Delayed(time), config).unwrap();
    assert_eq!(chip.commands, vec![0x87]);
    assert_eq!(
        chip.writes,
        vec![
            (SYS_CFG, vec![0x01, 0x00, 0x00, 0x00]),
            (FF_CFG, vec![0x0f, 0x00]),
            (TX_BUFFER, vec![0x01]),
            (TX_FCTRL, vec![0x03, 0x00, 0x00, 0x00, 0x00, 0x00]),
            (DX_TIME, vec![0x02, 0x00, 0x00, 0x00]),
        ]
    );
}

#[test]
fn send_that_fails_gives_the_handle_back() {
    let mut chip = Chip::new();
    chip.fail_on = Some(2);
    let config = Config { frame_filtering: false };
    match run_send(&mut chip, idle(), &[1, 2], SendTime::Now, config) {
        Err((same, error)) => {
            assert_eq!(error, Error::Spi(0x5a));
            assert_eq!(same.seq(), 0);
        }
        Ok(_) => panic!("the failed write went unnoticed"),
    }
    assert!(chip.commands.is_empty());
}

#[test]
fn finish_of_a_running_send_forces_idle() {
    let mut chip = Chip::new();
    let config = Config { frame_filtering: false };
    let sending = run_send(&mut chip, idle(), &[1, 2], SendTime::Now, config).unwrap();
    run_finish_sending(&mut chip, sending).unwrap();
    assert_eq!(chip.commands, vec![0x83, 0x81]);
}

#[test]
fn send_wait_passes_a_bus_error_through() {
    let mut chip = Chip::new();
    let config = Config { frame_filtering: false };
    let mut sending = run_send(&mut chip, idle(), &[1, 2], SendTime::Now, config).unwrap();
    chip.set_word(SYS_STATUS, 0x80, 6);
    chip.fail_on = Some(chip.performed + 1);
    assert_eq!(run_s_wait(&mut chip, &mut sending), Poll::Failed(Error::Spi(0x5a)));
    assert!(!sending.state().is_finished());
}

#[test]
fn double_buffered_receive_runs_like_a_receive() {
    let mut chip = chip_with_frame(&[4, 5, 6], 11);
    let mut handle = idle();
    let mut replies: Vec<Reply<u8>> = Vec::new();
    let mut receiving: DW3000<(), DoubleBufferReceiving> = loop {
        match handle.receive_double_buffered(Config { frame_filtering: false }, &replies) {
            Transition::Bus(same, transaction) => {
                handle = same;
                replies.push(chip.perform(&transaction));
            }
            Transition::Done(next) => break next,
            Transition::Failed(_, error) => panic!("the receive failed: {:?}", error),
        }
    };
    assert_eq!(chip.commands, vec![0x85]);
    assert!(!receiving.state().is_finished());
    let mut buffer = [0u8; 3];
    let mut replies: Vec<Reply<u8>> = Vec::new();
    let poll = loop {
        match receiving.r_wait_buf(&replies, &mut buffer) {
            Step::Bus(transaction) => replies.push(chip.perform(&transaction)),
            Step::Done(poll) => break poll,
        }
    };
    assert_eq!(poll, Poll::Ready((3, Instant::new(11).unwrap())));
    assert_eq!(buffer, [4, 5, 6]);
    let replies: Vec<Reply<u8>> = Vec::new();
    assert!(matches!(receiving.finish_receiving(&replies), Transition::Done(_)));
    assert_eq!(chip.commands, vec![0x85]);
}

#[test]
fn handle_lends_its_bus() {
    let mut handle: DW3000<Vec<u8>, Ready> = DW3000::new(vec![1, 2]);
    handle.ll().push(3);
    assert_eq!(handle.ll().as_slice(), &[1, 2, 3]);
    assert_eq!(handle.seq(), 0);
}
