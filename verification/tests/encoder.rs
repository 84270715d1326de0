use std::io::{Error as IoError, ErrorKind};

use sick::decoder::stream::{BufStreamDecoder, Step, StreamError};
use sick::decoder::{Error, FromBytes, Incomplete};
use sick::encoder::stream::BufEncoder;
use sick::encoder::{StagingBuffer, ToBytes};

/// A message of up to 255 bytes, written as its length in one byte and then
/// the bytes.
#[derive(Debug, PartialEq, Clone)]
struct Packet(Vec<u8>);

impl ToBytes for Packet {
    fn to_bytes(&self, writer: &mut StagingBuffer) -> Result<usize, IoError> {
        if self.0.len() > 255 {
            return Err(IoError::from(ErrorKind::InvalidData));
        }
        // The length is filled in once the body is written.
        let start = writer.position();
        writer.write_all(&[0])?;
        writer.write_all(&self.0)?;
        let end = writer.position();
        writer.seek(start);
        writer.write_all(&[(end - start - 1) as u8])?;
        writer.seek(end);
        Ok(end - start)
    }
}

impl<'a> FromBytes<'a> for Packet {
    type Error = ();

    fn from_bytes(input: &'a [u8]) -> Result<(&'a [u8], Self), Error<()>> {
        let Some((length, body)) = input.split_first() else {
            return Err(Error::Incomplete(Incomplete::Bytes(1)));
        };
        let length = usize::from(*length);
        if body.len() < length {
            return Err(Error::Incomplete(Incomplete::Bytes(length - body.len())));
        }
        let (body, tail) = body.split_at(length);
        Ok((tail, Packet(body.to_vec())))
    }
}

/// A source that hands out the bytes of a vector, `piece` at a time.
#[derive(Debug)]
struct Wire {
    bytes: Vec<u8>,
    at: usize,
    piece: usize,
}

impl Wire {
    fn read(&mut self, into: &mut [u8]) -> Result<usize, IoError> {
        let n = self.piece.min(into.len()).min(self.bytes.len() - self.at);
        into[..n].copy_from_slice(&self.bytes[self.at..self.at + n]);
        self.at += n;
        Ok(n)
    }
}

fn decode_packet(decoder: &mut BufStreamDecoder<Wire>) -> Result<Packet, StreamError<()>> {
    loop {
        match decoder.poll::<Packet>() {
            Step::Done(message) => return Ok(message),
            Step::Failed(err) => return Err(err),
            Step::Fill(hint) => {
                decoder.prepare(hint)?;
                let (source, tail) = decoder.read_target();
                let outcome = source.read(tail);
                decoder.supply(outcome)?;
            }
        }
    }
}

/// Stages the message and writes the frame to the sink, as one write.
fn encode(encoder: &mut BufEncoder<Vec<Vec<u8>>>, message: &Packet) -> Result<usize, IoError> {
    let n = encoder.stage(message)?;
    let (sink, frame) = encoder.write_target();
    sink.push(frame.to_vec());
    Ok(n)
}

#[test]
fn staging_buffer_starts_empty() {
    let buffer = StagingBuffer::new();
    assert_eq!(buffer.position(), 0);
    assert_eq!(buffer.get_ref(), &[] as &[u8]);
    assert_eq!(buffer.frame(), &[] as &[u8]);
}

#[test]
fn write_all_appends_and_moves_the_position() {
    let mut buffer = StagingBuffer::new();
    buffer.write_all(&[1, 2, 3]).unwrap();
    assert_eq!(buffer.position(), 3);
    buffer.write_all(&[]).unwrap();
    assert_eq!(buffer.position(), 3);
    buffer.write_all(&[4]).unwrap();
    assert_eq!(buffer.position(), 4);
    assert_eq!(buffer.get_ref(), &[1, 2, 3, 4]);
    assert_eq!(buffer.frame(), &[1, 2, 3, 4]);
}

#[test]
fn write_all_replaces_what_it_covers() {
    let mut buffer = StagingBuffer::new();
    buffer.write_all(&[1, 2, 3, 4, 5]).unwrap();
    buffer.seek(1);
    buffer.write_all(&[8, 9]).unwrap();
    assert_eq!(buffer.position(), 3);
    assert_eq!(buffer.get_ref(), &[1, 8, 9, 4, 5]);
    assert_eq!(buffer.frame(), &[1, 8, 9]);
}

#[test]
fn write_all_replaces_and_lengthens() {
    let mut buffer = StagingBuffer::new();
    buffer.write_all(&[1, 2, 3]).unwrap();
    buffer.seek(2);
    buffer.write_all(&[7, 8, 9]).unwrap();
    assert_eq!(buffer.position(), 5);
    assert_eq!(buffer.get_ref(), &[1, 2, 7, 8, 9]);
}

#[test]
fn write_all_behind_the_end_fills_the_gap_with_zeros() {
    let mut buffer = StagingBuffer::new();
    buffer.write_all(&[1]).unwrap();
    buffer.seek(4);
    assert_eq!(buffer.frame(), &[1]);
    buffer.write_all(&[5, 6]).unwrap();
    assert_eq!(buffer.get_ref(), &[1, 0, 0, 0, 5, 6]);
    assert_eq!(buffer.position(), 6);
}

#[test]
fn write_all_past_the_largest_position_is_refused() {
    let mut buffer = StagingBuffer::new();
    buffer.write_all(&[1, 2]).unwrap();
    buffer.seek(usize::MAX);
    let err = buffer.write_all(&[3]).unwrap_err();
    assert_eq!(err.kind(), ErrorKind::InvalidInput);
    assert_eq!(buffer.position(), usize::MAX);
    assert_eq!(buffer.get_ref(), &[1, 2]);
    buffer.seek(usize::MAX - 1);
    assert!(buffer.write_all(&[3, 4]).is_err());
}

#[test]
fn rewind_keeps_the_bytes() {
    let mut buffer = StagingBuffer::new();
    buffer.write_all(&[1, 2, 3]).unwrap();
    buffer.rewind();
    assert_eq!(buffer.position(), 0);
    assert_eq!(buffer.get_ref(), &[1, 2, 3]);
    assert_eq!(buffer.frame(), &[] as &[u8]);
    buffer.write_all(&[9]).unwrap();
    assert_eq!(buffer.get_ref(), &[9, 2, 3]);
    assert_eq!(buffer.frame(), &[9]);
}

#[test]
fn to_bytes_fills_in_the_length() {
    let mut buffer = StagingBuffer::new();
    assert_eq!(Packet(vec![5, 6, 7]).to_bytes(&mut buffer).unwrap(), 4);
    assert_eq!(buffer.frame(), &[3, 5, 6, 7]);
    assert_eq!(Packet(vec![]).to_bytes(&mut buffer).unwrap(), 1);
    assert_eq!(buffer.frame(), &[3, 5, 6, 7, 0]);
}

#[test]
fn stage_returns_the_length_of_the_frame() {
    let mut encoder = BufEncoder::new(());
    assert_eq!(encoder.stage(&Packet(vec![1, 2, 3])).unwrap(), 4);
    let (_, frame) = encoder.write_target();
    assert_eq!(frame, &[3, 1, 2, 3]);
}

#[test]
fn new_encoder_has_nothing_staged() {
    let mut encoder = BufEncoder::new(5u8);
    let (sink, frame) = encoder.write_target();
    assert_eq!(*sink, 5);
    assert_eq!(frame, &[] as &[u8]);
}

#[test]
fn stage_starts_each_message_at_the_front() {
    let mut encoder = BufEncoder::new(());
    encoder.stage(&Packet(vec![1, 2, 3, 4, 5])).unwrap();
    assert_eq!(encoder.stage(&Packet(vec![9])).unwrap(), 2);
    let (_, frame) = encoder.write_target();
    assert_eq!(frame, &[1, 9]);
    assert_eq!(encoder.stage(&Packet(vec![])).unwrap(), 1);
    let (_, frame) = encoder.write_target();
    assert_eq!(frame, &[0]);
}

#[test]
fn a_message_that_cannot_be_serialized_stages_nothing() {
    let mut encoder = BufEncoder::new(());
    encoder.stage(&Packet(vec![1, 2, 3])).unwrap();
    let err = encoder.stage(&Packet(vec![0; 256])).unwrap_err();
    assert_eq!(err.kind(), ErrorKind::InvalidData);
    let (_, frame) = encoder.write_target();
    assert_eq!(frame, &[] as &[u8]);
}

#[test]
fn each_message_goes_to_the_sink_as_one_write() {
    let mut encoder = BufEncoder::new(Vec::new());
    assert_eq!(encode(&mut encoder, &Packet(vec![1, 2])).unwrap(), 3);
    assert_eq!(encode(&mut encoder, &Packet(vec![])).unwrap(), 1);
    assert!(encode(&mut encoder, &Packet(vec![0; 300])).is_err());
    assert_eq!(encode(&mut encoder, &Packet(vec![7; 255])).unwrap(), 256);
    let (sink, _) = encoder.write_target();
    assert_eq!(sink.len(), 3);
    assert_eq!(sink[0], [2, 1, 2]);
    assert_eq!(sink[1], [0]);
    assert_eq!(sink[2].len(), 256);
    assert_eq!(sink[2][0], 255);
}

#[test]
fn parsing_a_serialized_message_yields_it_and_an_empty_tail() {
    for body in [vec![], vec![0], vec![1, 2, 3], vec![0xFF; 255]] {
        let message = Packet(body);
        let mut buffer = StagingBuffer::new();
        let n = message.to_bytes(&mut buffer).unwrap();
        assert_eq!(n, message.0.len() + 1);
        let (tail, parsed) = Packet::from_bytes(buffer.frame()).unwrap();
        assert_eq!(parsed, message);
        assert_eq!(tail, &[] as &[u8]);
    }
}

#[test]
fn what_the_encoder_writes_the_decoder_reads() {
    let sent = vec![
        Packet(vec![1, 2, 3]),
        Packet(vec![]),
        Packet((0..200).collect()),
        Packet(vec![0]),
        Packet(vec![9; 255]),
    ];
    let mut encoder = BufEncoder::new(Vec::new());
    for message in &sent {
        encode(&mut encoder, message).unwrap();
    }
    let (sink, _) = encoder.write_target();
    let bytes = sink.concat();
    for piece in [1, 2, 5, 64, 1000] {
        for size in [0, 1, 16, 256, 1024] {
            let wire = Wire {
                bytes: bytes.clone(),
                at: 0,
                piece,
            };
            let mut decoder = BufStreamDecoder::new(wire, size);
            for message in &sent {
                assert_eq!(&decode_packet(&mut decoder).unwrap(), message);
            }
            assert!(matches!(
                decode_packet(&mut decoder),
                Err(StreamError::Closed)
            ));
        }
    }
}
