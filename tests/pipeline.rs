use p25rx::block::{be_words, decode_block, BlockError};
use p25rx::consts::{
    BUF_BYTES, BUF_SAMPLES, DECIMATION, IQ_TABLE_LEN, POOL_CAPACITY, POWER_REPORT_INTERVAL,
};
use p25rx::stage::{acquire_output, DemodState, StageError};
use p25rx::decim::Decimator;
use p25rx::pool::Pool;
use p25rx::throttle::Throttler;

fn fired_calls(interval: usize, calls: usize) -> Vec<usize> {
    let mut t = Throttler::new(interval);
    let mut out = Vec::new();
    for k in 1..=calls {
        if t.throttle() {
            out.push(k);
        }
    }
    out
}

#[test]
fn throttle_interval_one_fires_every_call() {
    assert_eq!(fired_calls(1, 5), vec![1, 2, 3, 4, 5]);
}

#[test]
fn throttle_interval_two() {
    assert_eq!(fired_calls(2, 7), vec![2, 4, 6]);
}

#[test]
fn throttle_interval_four() {
    assert_eq!(fired_calls(4, 13), vec![4, 8, 12]);
}

#[test]
fn throttle_interval_ten() {
    assert_eq!(fired_calls(10, 35), vec![10, 20, 30]);
    assert_eq!(Throttler::new(10).interval(), 10);
}

#[test]
fn pool_checkout_release_round_trip() {
    let mut pool = Pool::with_capacity(POOL_CAPACITY, || vec![0u8; 4]);
    assert_eq!(pool.capacity(), 16);
    let mut held = Vec::new();
    for _ in 0..POOL_CAPACITY {
        held.push(pool.checkout().expect("within capacity"));
    }
    assert_eq!(pool.available(), 0);
    assert!(pool.checkout().is_none());
    pool.release(held.pop().unwrap());
    assert_eq!(pool.available(), 1);
    assert!(pool.checkout().is_some());
    assert!(pool.checkout().is_none());
}

#[test]
fn pool_keeps_released_contents() {
    let mut pool = Pool::with_capacity(1, || vec![0u8; 3]);
    let mut c = pool.checkout().unwrap();
    let old = c.replace(vec![7, 8, 9]);
    assert_eq!(old, vec![0, 0, 0]);
    pool.release(c);
    let c = pool.checkout().unwrap();
    assert_eq!(c.get(), &vec![7, 8, 9]);
}

#[test]
fn pool_of_zero_capacity_never_checks_out() {
    let mut pool = Pool::with_capacity(0, || 0u32);
    assert!(pool.checkout().is_none());
}

#[test]
fn decimation_divides_length() {
    let mut d = Decimator::new(DECIMATION);
    let mut buf: Vec<u32> = (0..20).collect();
    let n = d.decim_in_place(&mut buf, 20);
    assert_eq!(n, 4);
    assert_eq!(&buf[..n], &[4, 9, 14, 19]);
    assert_eq!(buf.len(), 20);
}

#[test]
fn decimation_is_phase_continuous() {
    let stream: Vec<u32> = (0..23).collect();

    let mut whole = Decimator::new(5);
    let mut one = stream.clone();
    let n = whole.decim_in_place(&mut one, 23);
    let expected: Vec<u32> = one[..n].to_vec();
    assert_eq!(expected, vec![4, 9, 14, 19]);

    let mut split = Decimator::new(5);
    let mut first = stream[..7].to_vec();
    let mut second = stream[7..].to_vec();
    let a = split.decim_in_place(&mut first, 7);
    let b = split.decim_in_place(&mut second, 16);
    let mut joined = first[..a].to_vec();
    joined.extend_from_slice(&second[..b]);
    assert_eq!(joined, expected);
}

#[test]
fn decimation_of_partial_buffer() {
    let mut d = Decimator::new(3);
    let mut buf: Vec<u32> = (10..20).collect();
    assert_eq!(d.decim_in_place(&mut buf, 4), 1);
    assert_eq!(buf[0], 12);
    assert_eq!(d.ratio(), 3);
}

#[test]
fn full_block_decimates_to_baseband_length() {
    let mut d = Decimator::new(DECIMATION);
    for _ in 0..3 {
        let mut buf = vec![0u16; BUF_SAMPLES];
        assert_eq!(d.decim_in_place(&mut buf, BUF_SAMPLES), 6400);
    }
    let mut odd = Decimator::new(DECIMATION);
    let mut buf = vec![0u16; 12];
    assert_eq!(odd.decim_in_place(&mut buf, 12), 2);
    let mut buf = vec![0u16; 12];
    assert_eq!(odd.decim_in_place(&mut buf, 12), 2);
    let mut buf = vec![0u16; 12];
    assert_eq!(odd.decim_in_place(&mut buf, 12), 3);
}

fn index_table() -> Vec<u32> {
    (0..IQ_TABLE_LEN as u32).collect()
}

#[test]
fn decode_block_maps_pairs_through_table() {
    let bytes: Vec<u8> = (0..BUF_BYTES).map(|k| (k % 251) as u8).collect();
    let table = index_table();
    let mut out = vec![0u32; BUF_SAMPLES];
    assert_eq!(decode_block(&bytes, &table, &mut out), Ok(()));
    assert_eq!(out[0], 0x0100);
    assert_eq!(out[1], 0x0302);
    assert_eq!(out[200], 150 * 256 + 149);
}

#[test]
fn decode_block_of_zero_block() {
    let bytes = vec![0u8; BUF_BYTES];
    let table: Vec<u32> = (0..IQ_TABLE_LEN as u32).map(|k| k + 1000).collect();
    let mut out = vec![0u32; BUF_SAMPLES];
    decode_block(&bytes, &table, &mut out).unwrap();
    assert!(out.iter().all(|&x| x == 1000));
}

#[test]
fn decode_block_rejects_wrong_length() {
    let table = index_table();
    let mut out = vec![7u32; BUF_SAMPLES];
    assert_eq!(decode_block(&[0u8; 6], &table, &mut out), Err(BlockError::WrongLength));
    assert_eq!(
        decode_block(&vec![0u8; BUF_BYTES + 2], &table, &mut out),
        Err(BlockError::WrongLength)
    );
    assert_eq!(decode_block(&[], &table, &mut out), Err(BlockError::WrongLength));
    assert!(out.iter().all(|&x| x == 7));
}

#[test]
fn stage_processes_block() {
    let table = index_table();
    let mut st = DemodState::new(0u32);
    assert_eq!(st.len(), 0);
    let bytes: Vec<u8> = (0..BUF_BYTES).map(|k| (k % 7) as u8).collect();
    assert_eq!(st.load_block(&bytes, &table), Ok(()));
    assert_eq!(st.len(), BUF_SAMPLES);
    assert_eq!(st.sample(0), 0x0100);
    for k in 0..st.len() {
        let x = st.sample(k);
        st.set_sample(k, x + 1);
    }
    assert_eq!(st.sample(0), 0x0101);
    assert_eq!(st.decimate(), BUF_SAMPLES / DECIMATION);
    assert_eq!(st.len(), 6400);
    // The fifth sample covers bytes 8 and 9, which are 1 and 2.
    assert_eq!(st.sample(0), 2 * 256 + 1 + 1);
}

#[test]
fn stage_refuses_malformed_block() {
    let table = index_table();
    let mut st = DemodState::new(5u32);
    assert_eq!(st.load_block(&[1, 2, 3], &table), Err(StageError::MalformedBlock));
    assert_eq!(st.len(), 0);
}

#[test]
fn stage_reports_power_every_fourth_block() {
    let mut st = DemodState::new(0u8);
    let due: Vec<bool> = (0..9).map(|_| st.power_report_due()).collect();
    assert_eq!(
        due,
        vec![false, false, false, true, false, false, false, true, false]
    );
    assert_eq!(POWER_REPORT_INTERVAL, 4);
}

#[test]
fn stage_pool_exhaustion_is_an_error() {
    let mut pool = Pool::with_capacity(2, || vec![0u8; 2]);
    let a = acquire_output(&mut pool).unwrap();
    let _b = acquire_output(&mut pool).unwrap();
    assert!(matches!(acquire_output(&mut pool), Err(StageError::PoolExhausted)));
    pool.release(a);
    assert!(acquire_output(&mut pool).is_ok());
}

#[test]
fn be_words_decode_big_endian() {
    let words = be_words(&[0x3f, 0x80, 0x00, 0x00, 0x01, 0x02, 0x03, 0x04]).unwrap();
    assert_eq!(words, vec![0x3f80_0000, 0x0102_0304]);
    assert_eq!(f32::from_bits(words[0]), 1.0);
    assert_eq!(be_words(&[]).unwrap(), Vec::<u32>::new());
}

#[test]
fn be_words_reject_partial_word() {
    assert_eq!(be_words(&[1, 2, 3]), Err(BlockError::PartialWord));
    assert_eq!(be_words(&[1, 2, 3, 4, 5]), Err(BlockError::PartialWord));
}
