use ultradebug_spi::mpsse::{ClockEdge, Command, Context, DataShiftOptions};
use ultradebug_spi::spi::{ClockPolarity, Transfer, TransferMode};
use ultradebug_spi::ultradebug::{collect_transfers, compile_transfer, UltradebugSpi};

fn session(mode: TransferMode, gpio_direction: u8, gpio_value: u8) -> UltradebugSpi {
    let mut spi = UltradebugSpi::open(Context {
        gpio_direction,
        gpio_value,
        max_clock_frequency: 30_000_000,
        clock_frequency: 30_000_000,
    });
    assert_eq!(spi.set_transfer_mode(mode), Ok(()));
    spi
}

fn reading(edge: ClockEdge) -> DataShiftOptions {
    DataShiftOptions {
        read_clock_edge: edge,
        read_data: true,
        write_clock_edge: ClockEdge::Rising,
        write_data: false,
    }
}

fn writing(edge: ClockEdge) -> DataShiftOptions {
    DataShiftOptions {
        read_clock_edge: ClockEdge::Rising,
        read_data: false,
        write_clock_edge: edge,
        write_data: true,
    }
}

// A stand-in for the shift engine: fills every read buffer, in place, with
// bytes counted up from `first`.
fn counting_engine(mut commands: Vec<Command>, first: u8) -> Vec<Command> {
    let mut next = first;
    for command in commands.iter_mut() {
        match command {
            Command::ReadData(_, buffer) | Command::TransactData(_, _, _, buffer) => {
                for byte in buffer.iter_mut() {
                    *byte = next;
                    next = next.wrapping_add(1);
                }
            }
            Command::SetLowGpio(_, _) | Command::WriteData(_, _) => {}
        }
    }
    commands
}

#[test]
fn write_then_read_in_idle_low() {
    let spi = session(TransferMode::Mode0, 0x1b, 0x58);
    let mut transaction = vec![Transfer::Write(vec![0xAA, 0xBB]), Transfer::Read(vec![0, 0])];
    let mut seen: Vec<Command> = Vec::new();
    let result: Result<(), String> = spi.run_transaction(&mut transaction, |commands: Vec<Command>| {
        seen = commands.clone();
        (counting_engine(commands, 0x11), Ok(()))
    });
    assert_eq!(result, Ok(()));
    assert_eq!(
        seen,
        vec![
            Command::SetLowGpio(0x1b, 0x50),
            Command::WriteData(writing(ClockEdge::Falling), vec![0xAA, 0xBB]),
            Command::ReadData(reading(ClockEdge::Rising), vec![0, 0]),
            Command::SetLowGpio(0x1b, 0x58),
        ]
    );
    assert_eq!(transaction, vec![Transfer::Write(vec![0xAA, 0xBB]), Transfer::Read(vec![0x11, 0x12])]);
}

#[test]
fn write_then_read_in_idle_high() {
    let spi = session(TransferMode::Mode3, 0x0b, 0x00);
    let commands = spi.compile_transaction(vec![Transfer::Write(vec![1]), Transfer::Read(vec![0; 3])]);
    assert_eq!(
        commands,
        vec![
            Command::SetLowGpio(0x0b, 0x00),
            Command::WriteData(writing(ClockEdge::Rising), vec![1]),
            Command::ReadData(reading(ClockEdge::Falling), vec![0; 3]),
            Command::SetLowGpio(0x0b, 0x08),
        ]
    );
}

#[test]
fn both_becomes_one_full_duplex_command() {
    let spi = session(TransferMode::Mode1, 0xff, 0xff);
    let commands = spi.compile_transaction(vec![Transfer::Both(vec![9, 8, 7], vec![0, 0, 0])]);
    assert_eq!(
        commands,
        vec![
            Command::SetLowGpio(0xff, 0xf7),
            Command::TransactData(
                writing(ClockEdge::Falling),
                vec![9, 8, 7],
                reading(ClockEdge::Rising),
                vec![0, 0, 0]
            ),
            Command::SetLowGpio(0xff, 0xff),
        ]
    );
}

#[test]
fn single_transfers_compile_by_polarity() {
    assert_eq!(
        compile_transfer(ClockPolarity::IdleLow, Transfer::Read(vec![0; 2])),
        Command::ReadData(reading(ClockEdge::Rising), vec![0; 2])
    );
    assert_eq!(
        compile_transfer(ClockPolarity::IdleHigh, Transfer::Read(vec![0; 2])),
        Command::ReadData(reading(ClockEdge::Falling), vec![0; 2])
    );
    assert_eq!(
        compile_transfer(ClockPolarity::IdleLow, Transfer::Write(vec![5])),
        Command::WriteData(writing(ClockEdge::Falling), vec![5])
    );
    assert_eq!(
        compile_transfer(ClockPolarity::IdleHigh, Transfer::Both(vec![5], vec![6])),
        Command::TransactData(writing(ClockEdge::Rising), vec![5], reading(ClockEdge::Falling), vec![6])
    );
}

#[test]
fn empty_transaction_is_just_the_bracket() {
    let spi = session(TransferMode::Mode0, 0x1b, 0x08);
    let commands = spi.compile_transaction(Vec::new());
    assert_eq!(commands, vec![Command::SetLowGpio(0x1b, 0x00), Command::SetLowGpio(0x1b, 0x08)]);
}

#[test]
fn command_list_is_two_longer_than_the_transaction() {
    let spi = session(TransferMode::Mode2, 0x1b, 0x58);
    for count in [0usize, 1, 2, 5, 42, 43] {
        let mut transaction = Vec::new();
        for i in 0..count {
            transaction.push(match i % 3 {
                0 => Transfer::Read(vec![0; i]),
                1 => Transfer::Write(vec![1; i]),
                _ => Transfer::Both(vec![2; i], vec![0; i]),
            });
        }
        let commands = spi.compile_transaction(transaction);
        assert_eq!(commands.len(), count + 2);
        assert!(matches!(commands[0], Command::SetLowGpio(_, _)));
        assert!(matches!(commands[count + 1], Command::SetLowGpio(_, _)));
        for command in &commands[1..count + 1] {
            assert!(!matches!(command, Command::SetLowGpio(_, _)));
        }
    }
}

#[test]
fn bracket_differs_in_chip_select_only() {
    for direction in [0x00u8, 0x1b, 0xff] {
        for value in 0..=255u8 {
            let spi = session(TransferMode::Mode0, direction, value);
            let commands = spi.compile_transaction(vec![Transfer::Write(vec![0])]);
            let (first, last) = match (&commands[0], &commands[2]) {
                (Command::SetLowGpio(d0, v0), Command::SetLowGpio(d1, v1)) => {
                    assert_eq!(*d0, direction);
                    assert_eq!(*d1, direction);
                    (*v0, *v1)
                }
                _ => panic!("the bracket is made of GPIO commands"),
            };
            assert_eq!(first ^ last, 0x08);
            assert_eq!(first & 0x08, 0x00);
            assert_eq!(last & 0x08, 0x08);
            assert_eq!(first & 0xf7, value & 0xf7);
            assert_eq!(last & 0xf7, value & 0xf7);
        }
    }
}

#[test]
fn full_duplex_read_buffer_holds_what_the_engine_wrote() {
    let spi = session(TransferMode::Mode0, 0x1b, 0x58);
    let mut incoming = Vec::with_capacity(64);
    incoming.extend_from_slice(&[0, 0, 0]);
    let mut transaction = vec![Transfer::Both(vec![0xDE, 0xAD, 0xBE], incoming)];
    let result: Result<(), String> =
        spi.run_transaction(&mut transaction, |commands: Vec<Command>| (counting_engine(commands, 0xF0), Ok(())));
    assert_eq!(result, Ok(()));
    assert_eq!(transaction.len(), 1);
    match &transaction[0] {
        Transfer::Both(outgoing, incoming) => {
            assert_eq!(outgoing, &vec![0xDE, 0xAD, 0xBE]);
            assert_eq!(incoming, &vec![0xF0, 0xF1, 0xF2]);
            assert_eq!(incoming.capacity(), 64);
        }
        _ => panic!("a full-duplex transfer comes back as one"),
    }
}

#[test]
fn engine_failure_is_handed_on_with_the_buffers() {
    let spi = session(TransferMode::Mode0, 0x1b, 0x58);
    let mut transaction = vec![Transfer::Write(vec![1, 2]), Transfer::Read(vec![0; 2])];
    let result: Result<(), String> = spi.run_transaction(&mut transaction, |commands: Vec<Command>| {
        (commands, Err(String::from("usb transfer failed")))
    });
    assert_eq!(result, Err(String::from("usb transfer failed")));
    assert_eq!(transaction, vec![Transfer::Write(vec![1, 2]), Transfer::Read(vec![0; 2])]);
}

#[test]
fn collecting_an_untouched_list_gives_the_transaction_back() {
    let spi = session(TransferMode::Mode2, 0x1b, 0x58);
    let transaction = vec![
        Transfer::Read(vec![0; 4]),
        Transfer::Both(vec![1, 2], vec![0, 0]),
        Transfer::Write(vec![3]),
        Transfer::Read(Vec::new()),
    ];
    let commands = spi.compile_transaction(transaction.clone());
    assert_eq!(collect_transfers(commands), transaction);
}

#[test]
fn collecting_skips_gpio_commands_wherever_they_stand() {
    let commands = vec![
        Command::ReadData(reading(ClockEdge::Rising), vec![7]),
        Command::SetLowGpio(1, 2),
        Command::SetLowGpio(3, 4),
        Command::WriteData(writing(ClockEdge::Falling), vec![8, 9]),
        Command::TransactData(writing(ClockEdge::Rising), vec![1], reading(ClockEdge::Rising), vec![2]),
    ];
    assert_eq!(
        collect_transfers(commands),
        vec![Transfer::Read(vec![7]), Transfer::Write(vec![8, 9]), Transfer::Both(vec![1], vec![2])]
    );
    assert_eq!(collect_transfers(Vec::new()), Vec::new());
}

#[test]
fn transactions_over_the_advised_count_still_compile() {
    let spi = session(TransferMode::Mode0, 0x1b, 0x58);
    let count = spi.get_max_transfer_count() + 8;
    let mut transaction: Vec<Transfer> = (0..count).map(|_| Transfer::Write(vec![0x55])).collect();
    let result: Result<(), String> =
        spi.run_transaction(&mut transaction, |commands: Vec<Command>| (commands, Ok(())));
    assert_eq!(result, Ok(()));
    assert_eq!(transaction.len(), count);
}
