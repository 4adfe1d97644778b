use ping_fox::addr::Ipv4Address;
use ping_fox::channel::create_sync_channel;
use ping_fox::checksum::internet_checksum;
use ping_fox::icmpv4::{IcmpV4, PAYLOAD_SIZE};
use ping_fox::ping_data_buffer::PingDataBuffer;
use ping_fox::ping_fox::{create_with_socket, PingReceiver, PingSender};
use ping_fox::ping_receive::PingReceive;
use ping_fox::records::{PingReceiveRecord, PingSendRecord};
use ping_fox::sequence_number::SequenceNumber;
use ping_fox::socket::{SocketError, TSocket};
use ping_fox::ttl::Ttl;
use std::sync::{Arc, Mutex};

#[derive(Clone, Copy, PartialEq, Eq)]
enum OnSend {
    ReturnErr,
    ReturnDefault,
}

#[derive(Clone, Copy, PartialEq, Eq)]
enum OnReceive {
    ReturnWouldBlock,
    ReturnDefault(usize),
}

struct SocketMock {
    on_send: OnSend,
    on_receive: Arc<Mutex<OnReceive>>,
    // Every reply's sequence number is the receive count plus this offset;
    // a non-zero offset simulates replies that match no pending request.
    reply_seq_offset: u16,
    sent: Arc<Mutex<Vec<(Vec<u8>, Ipv4Address)>>>,
    received_cnt: Arc<Mutex<u16>>,
}

impl Clone for SocketMock {
    fn clone(&self) -> Self {
        SocketMock {
            on_send: self.on_send,
            on_receive: self.on_receive.clone(),
            reply_seq_offset: self.reply_seq_offset,
            sent: self.sent.clone(),
            received_cnt: self.received_cnt.clone(),
        }
    }
}

impl SocketMock {
    fn new(on_send: OnSend, on_receive: OnReceive) -> Self {
        Self {
            on_send,
            on_receive: Arc::new(Mutex::new(on_receive)),
            reply_seq_offset: 0,
            sent: Arc::new(Mutex::new(vec![])),
            received_cnt: Arc::new(Mutex::new(0)),
        }
    }

    fn with_reply_seq_offset(mut self, offset: u16) -> Self {
        self.reply_seq_offset = offset;
        self
    }

    fn should_send_number_of_messages(&self, n: usize) -> &Self {
        assert!(n == self.sent.lock().unwrap().len());
        self
    }

    fn should_send_to_address(&self, addr: &Ipv4Address) -> &Self {
        assert!(self.sent.lock().unwrap().iter().any(|e| *addr == e.1));
        self
    }

    fn should_receive_number_of_messages(&self, n: u16) -> &Self {
        assert!(n == *self.received_cnt.lock().unwrap());
        self
    }

    fn sent_sequence_number(&self, i: usize) -> u16 {
        let sent = self.sent.lock().unwrap();
        u16::from_be_bytes([sent[i].0[6], sent[i].0[7]])
    }
}

fn echo_reply_bytes(seqn: u16) -> Vec<u8> {
    let mut bytes = vec![0u8, 0, 0, 0, 0xAB, 0xCD];
    bytes.extend_from_slice(&seqn.to_be_bytes());
    bytes.extend_from_slice(&[0xFF, 0xFF, 0xFF, 0xFF]);
    let checksum = internet_checksum(&bytes);
    let checksum_bytes = checksum.to_be_bytes();
    bytes[2] = checksum_bytes[0];
    bytes[3] = checksum_bytes[1];
    bytes
}

impl TSocket for SocketMock {
    fn send_to(&self, buf: &Vec<u8>, addr: Ipv4Address) -> Result<usize, SocketError> {
        if self.on_send == OnSend::ReturnErr {
            return Err(SocketError::Failed("simulating error in mock".to_string()));
        }
        self.sent.lock().unwrap().push((buf.clone(), addr));
        Ok(buf.len())
    }

    fn recv_from(&self, buf: &mut Vec<u8>) -> Result<(usize, Ipv4Address, Ttl), SocketError> {
        let on_receive: OnReceive = *self.on_receive.lock().unwrap();
        match on_receive {
            OnReceive::ReturnWouldBlock => {
                return Err(SocketError::WouldBlock);
            }
            OnReceive::ReturnDefault(cnt) => {
                *self.on_receive.lock().unwrap() = if cnt <= 1 {
                    OnReceive::ReturnWouldBlock
                } else {
                    OnReceive::ReturnDefault(cnt - 1)
                };
            }
        };

        let mut received_cnt = self.received_cnt.lock().unwrap();
        *received_cnt += 1;

        let reply = echo_reply_bytes(received_cnt.wrapping_add(self.reply_seq_offset));
        assert!(reply.len() <= buf.len(), "buffer too small");
        for (i, byte) in reply.iter().enumerate() {
            buf[i] = *byte;
        }

        Ok((reply.len(), Ipv4Address::new(127, 0, 0, 1), Ttl(128)))
    }
}

fn localhost() -> Ipv4Address {
    Ipv4Address::new(127, 0, 0, 1)
}

#[test]
fn icmpv4_test_send_one_ping() {
    let socket_mock = SocketMock::new(OnSend::ReturnDefault, OnReceive::ReturnWouldBlock);
    let socket_mock_clone = socket_mock.clone();
    let icmpv4 = IcmpV4::new(socket_mock_clone);

    let addr = localhost();
    let sequence_number = SequenceNumber::start_value();
    let result = icmpv4.send_to(addr, sequence_number);

    assert!(result.is_ok());
    socket_mock
        .should_send_number_of_messages(1)
        .should_send_to_address(&addr);
    // Every Echo Request is a header plus the fixed-size random payload.
    assert_eq!(
        PAYLOAD_SIZE + 8,
        socket_mock.sent.lock().unwrap()[0].0.len()
    );
}

#[test]
fn icmpv4_test_try_receive() {
    let socket_mock = SocketMock::new(OnSend::ReturnDefault, OnReceive::ReturnDefault(1));
    let socket_mock_clone = socket_mock.clone();
    let icmpv4 = IcmpV4::new(socket_mock_clone);

    let result = icmpv4.try_receive();

    assert!(result.is_ok());
    assert!(result.as_ref().unwrap().is_some());
    let record = result.unwrap().unwrap();
    assert!(record.package_size >= 8);
    assert!(record.ip_addr == localhost());
    socket_mock.should_receive_number_of_messages(1);
}

#[test]
fn ping_fox_ping_localhost_succeeds() {
    let ip = localhost();
    let channel_size = 4;
    let socket = SocketMock::new(OnSend::ReturnDefault, OnReceive::ReturnDefault(usize::MAX));

    let (mut ping_sender, mut ping_receiver) = create_with_socket(socket, channel_size, vec![]);
    let token = ping_sender.send_to(ip).unwrap();
    let ping_response = ping_receiver.receive(token);

    assert!(ping_response.is_ok());

    let token = ping_sender.send_to(ip).unwrap();
    let ping_response = ping_receiver.receive(token);

    assert!(ping_response.is_ok());
}

#[test]
fn received_data_names_the_destination_and_a_positive_duration() {
    let ip = localhost();
    let socket = SocketMock::new(OnSend::ReturnDefault, OnReceive::ReturnDefault(usize::MAX));

    let (mut ping_sender, mut ping_receiver) = create_with_socket(socket, 4, vec![]);
    let token = ping_sender.send_to(ip).unwrap();
    let ping_response = ping_receiver.receive(token).unwrap();

    match ping_response {
        PingReceive::Data(data) => {
            assert_eq!(ip, data.ip_addr);
            assert_eq!(1, data.sequence_number);
            assert_ne!(0, data.ttl);
            assert!(data.ping_duration > 0);
        }
        PingReceive::Timeout => panic!("expected data, got a timeout"),
    }
}

#[test]
fn ping_sender_send_ping_packages_success() {
    let socket = SocketMock::new(OnSend::ReturnDefault, OnReceive::ReturnDefault(2));
    let icmpv4 = Arc::new(IcmpV4::new(socket));
    let (tx, rx) = create_sync_channel(2);
    let ping_sender = PingSender::new(icmpv4, tx, [].into());

    ping_sender.send_one(localhost(), SequenceNumber(1)).unwrap();
    ping_sender.send_one(localhost(), SequenceNumber(2)).unwrap();

    let ping_sent_record_1 = rx.try_receive();
    let ping_sent_record_2 = rx.try_receive();

    assert!(ping_sent_record_1.is_ok());
    let PingSendRecord {
        payload_size,
        ip_addr,
        sequence_number,
        send_time: _,
    } = ping_sent_record_1.unwrap();
    assert!(localhost() == ip_addr);
    assert!(sequence_number == SequenceNumber(1));
    assert_eq!(PAYLOAD_SIZE, payload_size);

    assert!(ping_sent_record_2.is_ok());
    let PingSendRecord {
        payload_size: _,
        ip_addr,
        sequence_number,
        send_time: _,
    } = ping_sent_record_2.unwrap();
    assert!(localhost() == ip_addr);
    assert!(sequence_number == SequenceNumber(2));
}

#[test]
fn ping_sender_when_socket_fails_then_ping_sender_fails() {
    let socket = SocketMock::new(OnSend::ReturnErr, OnReceive::ReturnWouldBlock);
    let icmpv4 = Arc::new(IcmpV4::new(socket));
    let (tx, rx) = create_sync_channel(1);
    let ping_sender = PingSender::new(icmpv4, tx, [].into());

    let send_result = ping_sender.send_one(localhost(), SequenceNumber::start_value());

    assert!(send_result.is_err());
    assert!(rx.try_receive().is_err());
}

#[test]
fn ping_receiver_receive_ping_packages_success() {
    let socket = SocketMock::new(OnSend::ReturnDefault, OnReceive::ReturnDefault(2));
    let (mut ping_sender, ping_receiver) = create_with_socket(socket, 4, vec![]);

    // Three sends mint the three tokens the receive attempts require.
    let token_1 = ping_sender.send_to(localhost()).unwrap();
    let token_2 = ping_sender.send_to(localhost()).unwrap();
    let token_3 = ping_sender.send_to(localhost()).unwrap();

    let recv_record_1 = ping_receiver.receive_aux(token_1).unwrap();
    let recv_record_2 = ping_receiver.receive_aux(token_2).unwrap();
    let recv_record_3 = ping_receiver.receive_aux(token_3).unwrap();

    assert!(matches!(recv_record_1, PingReceiveRecord::Data(_)));
    assert!(matches!(recv_record_2, PingReceiveRecord::Data(_)));
    assert!(matches!(recv_record_3, PingReceiveRecord::Timeout));
}

#[test]
fn ping_receiver_when_socket_fails_then_ping_receiver_returns_timeout() {
    let socket = SocketMock::new(OnSend::ReturnDefault, OnReceive::ReturnWouldBlock);
    let (mut ping_sender, ping_receiver) = create_with_socket(socket, 4, vec![]);

    let token = ping_sender.send_to(localhost()).unwrap();
    let recv_record = ping_receiver.receive_aux(token).unwrap();

    assert!(matches!(recv_record, PingReceiveRecord::Timeout));
}

#[test]
fn receive_against_always_would_block_times_out_exactly_once() {
    let socket = SocketMock::new(OnSend::ReturnDefault, OnReceive::ReturnWouldBlock);
    let (mut ping_sender, mut ping_receiver) = create_with_socket(socket, 4, vec![]);

    let token = ping_sender.send_to(localhost()).unwrap();
    let outcome = ping_receiver.receive(token).unwrap();
    assert_eq!(PingReceive::Timeout, outcome);
}

#[test]
fn unmatched_reply_is_an_error_and_does_not_stop_receiving() {
    // Replies carry sequence numbers far from anything pending.
    let socket = SocketMock::new(OnSend::ReturnDefault, OnReceive::ReturnDefault(1))
        .with_reply_seq_offset(777);
    let (mut ping_sender, mut ping_receiver) = create_with_socket(socket, 4, vec![]);

    let token = ping_sender.send_to(localhost()).unwrap();
    let response = ping_receiver.receive(token);
    assert!(response.is_err());

    // The receive path survives: the next attempt simply times out.
    let token = ping_sender.send_to(localhost()).unwrap();
    assert_eq!(PingReceive::Timeout, ping_receiver.receive(token).unwrap());
}

#[test]
fn ping_runner_v2_ping_localhost_succeeds() {
    let socket = SocketMock::new(OnSend::ReturnDefault, OnReceive::ReturnDefault(usize::MAX));
    let (mut ping_sender, mut ping_receiver) =
        create_with_socket(socket, 4, vec![localhost()]);

    let mut tokens = ping_sender.send_ping_to_each_address().unwrap();
    let token = tokens.pop().expect("logic error: vec empty");
    let ping_response = ping_receiver.receive_ping(token);
    println!("{ping_response:?}");
    assert!(ping_response.is_ok());
}

#[test]
fn two_consecutive_rounds_use_consecutive_sequence_numbers() {
    let socket = SocketMock::new(OnSend::ReturnDefault, OnReceive::ReturnWouldBlock);
    let mock_handle = socket.clone();
    let (mut ping_sender, _ping_receiver) = create_with_socket(socket, 8, vec![localhost()]);

    ping_sender.send_ping_to_each_address().unwrap();
    ping_sender.send_ping_to_each_address().unwrap();

    mock_handle.should_send_number_of_messages(2);
    assert_eq!(1, mock_handle.sent_sequence_number(0));
    assert_eq!(2, mock_handle.sent_sequence_number(1));
}

#[test]
fn one_round_to_localhost_yields_exactly_one_data_outcome() {
    // One destination, one round: exactly one Data outcome with a non-zero
    // TTL, and nothing after it but timeouts.
    let socket = SocketMock::new(OnSend::ReturnDefault, OnReceive::ReturnDefault(1));
    let (mut ping_sender, mut ping_receiver) =
        create_with_socket(socket, 4, vec![localhost()]);

    let mut tokens = ping_sender.send_ping_to_each_address().unwrap();
    assert_eq!(1, tokens.len());
    let token = tokens.pop().unwrap();

    match ping_receiver.receive(token).unwrap() {
        PingReceive::Data(data) => {
            assert_eq!(localhost(), data.ip_addr);
            assert_ne!(0, data.ttl);
        }
        PingReceive::Timeout => panic!("expected exactly one data outcome"),
    }
}
