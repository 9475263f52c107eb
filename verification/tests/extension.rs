use rand::{Rng, RngCore, SeedableRng};
use rand_chacha::ChaCha12Rng;
use tls_mpc::ot::block::Block;
use tls_mpc::ot::extension::{
    OtReceiverCore, OtReceiverCoreError, OtReceiverSetup, OtReceiverState, OtSenderCore,
    OtSenderCoreError, OtSenderState, Prg, NBASE,
};
use tls_mpc::ot::utils::{boolvec_to_u8vec, pack_boolvec, transpose, u8vec_to_boolvec};

/// Runs the base transfers as they are meant to end: the sender holds, of
/// each pair of seeds, the one its base choice names.
fn base_transfers(sender: &mut OtSenderCore, receiver: &mut OtReceiverCore) {
    let pairs = receiver.base_send().unwrap();
    let chosen: Vec<Block> = pairs
        .iter()
        .zip(sender.base_choice().iter())
        .map(|(pair, choice)| pair[*choice as usize])
        .collect();
    sender.base_receive(chosen).unwrap();
}

#[test]
fn test_ot() {
    let s_rng = ChaCha12Rng::from_entropy();
    let r_rng = ChaCha12Rng::from_entropy();

    let mut receiver = OtReceiverCore::new(r_rng, [0u8; 16]);
    let mut sender = OtSenderCore::new(s_rng, [0u8; 16]);
    base_transfers(&mut sender, &mut receiver);

    let mut choice = vec![0u8; 2];
    let mut rng = ChaCha12Rng::from_entropy();
    rng.fill_bytes(&mut choice);
    let choice = u8vec_to_boolvec(&choice);
    let inputs: Vec<[Block; 2]> = (0..16)
        .map(|_| [Block::new(rng.gen()), Block::new(rng.gen())])
        .collect();

    let receiver_setup = receiver.extension_setup(&choice).unwrap();
    sender.extension_setup(receiver_setup).unwrap();

    let send = sender.send(&inputs).unwrap();
    let receive = receiver.receive(&choice, send).unwrap();

    let expected: Vec<Block> = inputs
        .iter()
        .zip(choice)
        .map(|(input, choice)| input[choice as usize])
        .collect();

    assert_eq!(expected, receive);
}

#[test]
fn test_base_setup() {
    let s_rng = ChaCha12Rng::from_entropy();
    let r_rng = ChaCha12Rng::from_entropy();

    let mut receiver = OtReceiverCore::new(r_rng, [0u8; 16]);
    let mut sender = OtSenderCore::new(s_rng, [0u8; 16]);
    base_transfers(&mut sender, &mut receiver);

    let inputs = receiver.seeds().clone().unwrap();
    let choice = sender.base_choice().clone();
    let received = sender.seeds().clone().unwrap();
    let expected: Vec<Block> = inputs
        .iter()
        .zip(choice.iter())
        .map(|(input, choice)| input[*choice as usize])
        .collect();
    assert_eq!(expected, received);
}

#[test]
fn test_rngs() {
    let s_rng = ChaCha12Rng::from_entropy();
    let r_rng = ChaCha12Rng::from_entropy();

    let mut receiver = OtReceiverCore::new(r_rng, [0u8; 16]);
    let mut sender = OtSenderCore::new(s_rng, [0u8; 16]);
    base_transfers(&mut sender, &mut receiver);

    let receiver_rngs = receiver.rngs().clone().unwrap();
    let mut receiver_chosen_rngs: Vec<Prg> = receiver_rngs
        .into_iter()
        .zip(sender.base_choice().iter())
        .map(|(rngs, choice)| rngs[*choice as usize])
        .collect();
    let mut sender_rngs = sender.rngs().clone().unwrap();

    for i in 0..NBASE {
        let s = sender_rngs[i].fill_bytes(16);
        let r = receiver_chosen_rngs[i].fill_bytes(16);
        assert_eq!(s, r);
    }
}

#[test]
fn transfers_of_uneven_count_deliver_the_choice() {
    let mut rng = ChaCha12Rng::seed_from_u64(7);
    let mut receiver = OtReceiverCore::new(ChaCha12Rng::seed_from_u64(1), [3u8; 16]);
    let mut sender = OtSenderCore::new(ChaCha12Rng::seed_from_u64(2), [3u8; 16]);
    base_transfers(&mut sender, &mut receiver);

    let choice: Vec<bool> = (0..21).map(|_| rng.gen()).collect();
    let inputs: Vec<[Block; 2]> = (0..21)
        .map(|_| [Block::new(rng.gen()), Block::new(rng.gen())])
        .collect();
    let setup = receiver.extension_setup(&choice).unwrap();
    assert_eq!(setup.ncols, 24);
    assert_eq!(setup.table.len(), NBASE);
    assert!(setup.table.iter().all(|row| row.len() == 3));
    assert!(setup.is_wf());
    assert_eq!(sender.capacity(), 0);
    sender.extension_setup(setup).unwrap();
    assert_eq!(sender.capacity(), 24);
    assert_eq!(receiver.capacity(), 24);
    let payload = sender.send(&inputs).unwrap();
    assert_eq!(payload.encrypted_values.len(), 21);
    let received = receiver.receive(&choice, payload).unwrap();
    for j in 0..21 {
        assert_eq!(received[j], inputs[j][choice[j] as usize]);
        assert_ne!(received[j], inputs[j][!choice[j] as usize]);
    }
    assert_eq!(sender.state(), OtSenderState::Complete);
    assert_eq!(receiver.state(), OtReceiverState::Complete);
}

#[test]
fn a_second_setup_reads_on_in_the_streams() {
    let mut receiver = OtReceiverCore::new(ChaCha12Rng::seed_from_u64(1), [0u8; 16]);
    let mut sender = OtSenderCore::new(ChaCha12Rng::seed_from_u64(2), [0u8; 16]);
    base_transfers(&mut sender, &mut receiver);

    let choice = vec![true, false, true, true, false, false, true, false, true];
    let first = receiver.extension_setup(&choice).unwrap();
    sender.extension_setup(first.clone()).unwrap();
    let second = receiver.extension_setup(&choice).unwrap();
    sender.extension_setup(second.clone()).unwrap();
    assert_ne!(first.table, second.table);
    // Two bytes per row were read, which is one word of the stream.
    assert!(sender.rngs().as_ref().unwrap().iter().all(|rng| rng.word_pos == 2));

    let inputs: Vec<[Block; 2]> =
        (0..9u128).map(|i| [Block::new(i), Block::new(100 + i)]).collect();
    let payload = sender.send(&inputs).unwrap();
    let received = receiver.receive(&choice, payload).unwrap();
    for j in 0..9 {
        assert_eq!(received[j], inputs[j][choice[j] as usize]);
    }
}

#[test]
fn a_generator_moved_on_reads_what_a_running_one_reads() {
    let seed = [0x5au8; 32];
    let mut running = ChaCha12Rng::from_seed(seed);
    let mut prg = Prg { seed, word_pos: 0 };
    for len in [1usize, 3, 4, 5, 16, 63, 64, 65, 256, 300, 7] {
        let mut expected = vec![0u8; len];
        running.fill_bytes(&mut expected);
        assert_eq!(prg.fill_bytes(len), expected);
        assert_eq!(prg.word_pos, running.get_word_pos());
    }
}

#[test]
fn steps_out_of_order_are_refused() {
    let mut receiver = OtReceiverCore::new(ChaCha12Rng::seed_from_u64(1), [0u8; 16]);
    let mut sender = OtSenderCore::new(ChaCha12Rng::seed_from_u64(2), [0u8; 16]);
    assert_eq!(sender.state(), OtSenderState::Initialized);
    assert_eq!(receiver.state(), OtReceiverState::Initialized);

    assert_eq!(
        receiver.extension_setup(&[true]).unwrap_err(),
        OtReceiverCoreError::BaseOTNotSetup
    );
    assert_eq!(
        receiver
            .receive(&[], tls_mpc::ot::extension::OtSenderPayload { encrypted_values: vec![] })
            .unwrap_err(),
        OtReceiverCoreError::NotSetup
    );
    assert_eq!(sender.send(&[]).unwrap_err(), OtSenderCoreError::NotSetup);
    assert_eq!(
        sender.base_receive(vec![Block::new(0); 127]).unwrap_err(),
        OtSenderCoreError::BaseOTNotSetup
    );
    assert_eq!(sender.state(), OtSenderState::Initialized);

    base_transfers(&mut sender, &mut receiver);
    assert_eq!(sender.state(), OtSenderState::BaseSetup);
    assert_eq!(receiver.state(), OtReceiverState::BaseSetup);
    assert_eq!(sender.send(&[]).unwrap_err(), OtSenderCoreError::NotSetup);
}

#[test]
fn malformed_setup_is_recognised() {
    let good = OtReceiverSetup { ncols: 16, table: vec![vec![0u8; 2]; NBASE] };
    assert!(good.is_wf());
    let mut ragged = good.clone();
    ragged.table[127] = vec![0u8; 1];
    assert!(!ragged.is_wf());
    let mut short = good.clone();
    short.table.pop();
    assert!(!short.is_wf());
    let mut miscounted = good.clone();
    miscounted.ncols = 15;
    assert!(!miscounted.is_wf());
    assert!(OtReceiverSetup { ncols: 0, table: vec![vec![]; NBASE] }.is_wf());
}

#[test]
fn bits_and_bytes_convert_most_significant_bit_first() {
    assert_eq!(
        u8vec_to_boolvec(&[0b1010_0001]),
        vec![true, false, true, false, false, false, false, true]
    );
    assert_eq!(boolvec_to_u8vec(&[true, false, true]), vec![0b1010_0000]);
    assert_eq!(
        boolvec_to_u8vec(&[false, false, false, false, false, false, false, true, true]),
        vec![1, 0x80]
    );
    assert_eq!(boolvec_to_u8vec(&[]), Vec::<u8>::new());
    let bytes = vec![0x12, 0x34, 0xff, 0x00];
    assert_eq!(boolvec_to_u8vec(&u8vec_to_boolvec(&bytes)), bytes);
    assert_eq!(pack_boolvec(&[true, false, true, true]), 0b1011);
}

#[test]
fn transpose_turns_rows_into_columns() {
    // Three rows of eight bits.
    let rows = vec![vec![0b1000_0001u8], vec![0b0100_0001], vec![0b1100_0000]];
    let columns = transpose(&rows, 8);
    assert_eq!(columns, vec![0b101, 0b011, 0, 0, 0, 0, 0, 0b110]);
}

#[test]
fn hash_depends_on_block_tweak_and_key() {
    let block = Block::new(0x0123_4567_89ab_cdef);
    let key = [7u8; 16];
    let hash = block.hash_tweak(&key, 5);
    assert_eq!(hash, block.hash_tweak(&key, 5));
    assert_ne!(hash, block.hash_tweak(&key, 6));
    assert_ne!(hash, Block::new(1).hash_tweak(&key, 5));
    assert_ne!(hash, block.hash_tweak(&[8u8; 16], 5));
    assert_eq!(Block::from_be_bytes(block.to_be_bytes()), block);
    assert_eq!(block.xor(block), Block::new(0));
}

#[test]
fn base_choices_are_drawn_from_the_generator_handed_in() {
    let first = OtSenderCore::new(ChaCha12Rng::seed_from_u64(1), [0u8; 16]);
    let again = OtSenderCore::new(ChaCha12Rng::seed_from_u64(1), [0u8; 16]);
    let other = OtSenderCore::new(ChaCha12Rng::seed_from_u64(2), [0u8; 16]);
    assert_eq!(first.base_choice().len(), NBASE);
    assert_eq!(first.base_choice(), again.base_choice());
    assert_ne!(first.base_choice(), other.base_choice());
    assert!(first.seeds().is_none());
    assert!(first.rngs().is_none());

    let mut receiver = OtReceiverCore::new(ChaCha12Rng::seed_from_u64(3), [0u8; 16]);
    let pairs = receiver.base_send().unwrap();
    assert_eq!(pairs.len(), NBASE);
    assert!(pairs.iter().all(|pair| pair[0] != pair[1]));
    assert_eq!(receiver.seeds().as_ref().unwrap(), &pairs);
    let rngs = receiver.rngs().as_ref().unwrap();
    assert_eq!(rngs[5][0].seed[..16], pairs[5][0].to_be_bytes());
    assert_eq!(rngs[5][0].seed[16..], pairs[5][0].to_be_bytes());
    assert_eq!(rngs[5][1].seed[..16], pairs[5][1].to_be_bytes());
    assert_eq!(rngs[5][1].word_pos, 0);
}
