//! Tests of the four transaction relations and the two single-primitive
//! relations: satisfiable witnesses, tampered witnesses, and the error
//! reporting of the checkers.

use aegis_circuit::circuits::exchange_circuit::ExchangeCircuit;
use aegis_circuit::circuits::poseidon_circuit::PoseidonCircuit;
use aegis_circuit::circuits::receive_circuit::ReceiveCircuit;
use aegis_circuit::circuits::register_circuit::RegisterCircuit;
use aegis_circuit::circuits::send_circuit::SendCircuit;
use aegis_circuit::circuits::sha256_circuit::Sha256Circuit;
use aegis_circuit::circuits::{MockingCircuit, MockingHashCircuit};
use aegis_circuit::curve::te_generator;
use aegis_circuit::elgamal;
use aegis_circuit::field::{fp_add, fp_sub, random_fp, random_scalar, Felt};
use aegis_circuit::hash::{get_poseidon_params, hash1, hash2, hash4, hash6};
use aegis_circuit::Error;

#[test]
fn register_test_test_constraints() {
    let circuit = RegisterCircuit::generate_circuit(32).unwrap();
    assert!(circuit.check().is_ok());
}

#[test]
fn send_test_test_constraints() {
    let circuit = SendCircuit::generate_circuit(32).unwrap();
    assert!(circuit.check().is_ok());
}

#[test]
fn receive_test_test_constraints() {
    let circuit = ReceiveCircuit::generate_circuit(33).unwrap();
    assert!(circuit.check().is_ok());
}

#[test]
fn exchange_test_test_constraints() {
    let circuit = ExchangeCircuit::generate_circuit(33).unwrap();
    assert!(circuit.check().is_ok());
}

#[test]
fn test_poseidon_constraints() {
    let circuit = PoseidonCircuit::generate_circuit().unwrap();
    assert!(circuit.check().is_ok());
}

#[test]
fn test_sha256_constraints() {
    let circuit = Sha256Circuit::generate_circuit().unwrap();
    assert!(circuit.check().is_ok());
}

#[test]
fn mocking_builders_fix_their_values() {
    // the mocking Send spends four and transfers one at position zero,
    // and its tag is the hash of the four-slot recipient ciphertext
    let params = get_poseidon_params();
    let send = SendCircuit::generate_circuit(33).unwrap();
    assert_eq!(send.witness.v_cur.unwrap(), Felt::from_u64(4));
    assert_eq!(send.witness.v.unwrap(), Felt::from_u64(1));
    assert_eq!(send.witness.leaf_pos.unwrap(), 0);
    let kx = send.witness.k_point_x.unwrap().k;
    let plain4 = [
        send.witness.addr_snd.unwrap(),
        send.witness.v.unwrap(),
        send.witness.o_v.unwrap(),
        send.instance.sn_cur.unwrap(),
    ];
    let mut ct = Vec::new();
    for (i, m) in plain4.iter().enumerate() {
        let h = hash2(&params, &kx, &Felt::from_u64(i as u64));
        ct.push(fp_add(&h, m));
    }
    assert_eq!(
        send.instance.tag.unwrap(),
        aegis_circuit::hash::poseidon_hash(&params, &ct)
    );

    // the mocking Receive merges one unit into a one-unit balance
    let receive = ReceiveCircuit::generate_circuit(33).unwrap();
    assert_eq!(receive.witness.v.unwrap(), Felt::from_u64(1));
    assert_eq!(receive.witness.v_cur.unwrap(), Felt::from_u64(1));
    assert_eq!(receive.witness.leaf_pos.unwrap(), 0);

    // the mocking Exchange settles five outbound against 100 and 200
    // under the directional secrets three and four
    let exchange = ExchangeCircuit::generate_circuit(33).unwrap();
    assert_eq!(exchange.witness.flag.unwrap(), false);
    assert_eq!(
        exchange.witness.sk_d.clone().unwrap(),
        vec![Felt::from_u64(3), Felt::from_u64(4)]
    );
    assert_eq!(exchange.witness.v.unwrap(), Felt::from_u64(5));
    assert_eq!(exchange.witness.v_cur.unwrap(), Felt::from_u64(100));
    assert_eq!(exchange.witness.v_cur_d.unwrap(), Felt::from_u64(200));
    assert_eq!(exchange.witness.leaf_pos.unwrap(), 0);
}

#[test]
fn ownership_rejects_any_other_secret() {
    // pk = G^sk is satisfied for generated keypairs and for no witness
    // whose public key is not the generator multiple of its secret
    let mut register = RegisterCircuit::generate_circuit(32).unwrap();
    assert!(register.check().is_ok());
    let sk = register.witness.sk.unwrap();
    register.witness.sk = Some(fp_add(&sk, &Felt::from_u64(1)));
    assert_eq!(register.check(), Err(Error::Unsatisfied(0)));

    let mut send = SendCircuit::generate_circuit(16).unwrap();
    let sk = send.witness.sk_snd.unwrap();
    send.witness.sk_snd = Some(fp_add(&sk, &Felt::from_u64(1)));
    assert_eq!(send.check(), Err(Error::Unsatisfied(0)));

    let mut exchange = ExchangeCircuit::generate_circuit(16).unwrap();
    let sk = exchange.witness.sk.unwrap();
    exchange.witness.sk = Some(fp_add(&sk, &Felt::from_u64(1)));
    assert_eq!(exchange.check(), Err(Error::Unsatisfied(0)));

    let mut receive = ReceiveCircuit::generate_circuit(16).unwrap();
    let sk = receive.witness.sk_rcv.unwrap();
    receive.witness.sk_rcv = Some(fp_add(&sk, &Felt::from_u64(1)));
    assert_eq!(receive.check(), Err(Error::Unsatisfied(1)));
}

#[test]
fn missing_assignment_is_reported() {
    let mut register = RegisterCircuit::generate_circuit(32).unwrap();
    register.witness.sk = None;
    assert_eq!(register.check(), Err(Error::MissingAssignment));

    let mut send = SendCircuit::generate_circuit(16).unwrap();
    send.instance.rt = None;
    assert_eq!(send.check(), Err(Error::MissingAssignment));
}

#[test]
fn malformed_shapes_are_reported() {
    let mut register = RegisterCircuit::generate_circuit(32).unwrap();
    register.instance.ct_bar = Some(vec![Felt::from_u64(0); 6]);
    assert_eq!(register.check(), Err(Error::MalformedInput));

    let mut exchange = ExchangeCircuit::generate_circuit(16).unwrap();
    exchange.instance.ck = Some(vec![te_generator()]);
    assert_eq!(exchange.check(), Err(Error::MalformedInput));

    let mut receive = ReceiveCircuit::generate_circuit(16).unwrap();
    receive.witness.ct = Some(vec![]);
    assert_eq!(receive.check(), Err(Error::MalformedInput));
}

#[test]
fn send_balance_conservation() {
    // satisfied iff 0 <= v <= v_cur with the change commitment over
    // v_cur - v; the wrong value branch or v > v_cur is rejected
    let params = get_poseidon_params();
    let generator = te_generator();
    let eg = elgamal::Parameters { generator };
    let apk = elgamal::keygen(&eg, &random_scalar());
    let pk_rcv = elgamal::keygen(&eg, &random_scalar());
    let sk = random_scalar();
    let (o_cur, o_v, o_new) = (random_fp(), random_fp(), random_fp());
    let r = random_scalar();
    let k = aegis_circuit::curve::random_point();
    let send = SendCircuit::build(
        params.clone(),
        generator,
        apk,
        pk_rcv,
        sk,
        4,
        1,
        o_cur,
        o_v,
        o_new,
        r,
        k,
        8,
    );
    assert!(send.check().is_ok());

    // raising v alone recomputes cm_new with the wrong value branch
    let mut wrong_branch = send.clone();
    wrong_branch.witness.v = Some(Felt::from_u64(2));
    assert_eq!(wrong_branch.check(), Err(Error::Unsatisfied(6)));

    // raising v consistently past v_cur trips the range gate instead
    let mut overdraw = send.clone();
    let v5 = Felt::from_u64(5);
    let addr = overdraw.witness.addr_snd.unwrap();
    let sn_cur = overdraw.instance.sn_cur.unwrap();
    let sn_new = overdraw.witness.sn_new.unwrap();
    let o_new = overdraw.witness.o_new.unwrap();
    let o_v = overdraw.witness.o_v.unwrap();
    let v_cur = overdraw.witness.v_cur.unwrap();
    let pk_rcv = overdraw.witness.pk_rcv.unwrap();
    let kx = overdraw.witness.k_point_x.unwrap().k;
    overdraw.witness.v = Some(v5);
    overdraw.instance.cm_new = Some(hash4(&params, &addr, &fp_sub(&v_cur, &v5), &sn_new, &o_new));
    overdraw.instance.cm_v = Some(hash6(
        &params, &addr, &v5, &pk_rcv.x(), &pk_rcv.y(), &sn_cur, &o_v,
    ));
    let mut ct = overdraw.instance.ct_bar.clone().unwrap();
    ct[1] = fp_add(&hash2(&params, &kx, &Felt::from_u64(1)), &v5);
    overdraw.instance.ct_bar = Some(ct);
    assert_eq!(overdraw.check(), Err(Error::Unsatisfied(7)));
}

#[test]
fn exchange_directionality() {
    // flipping the flag while holding every other witness value fixed
    // breaks the value branch of the new commitment
    let flipped_only = {
        let mut c = ExchangeCircuit::generate_circuit(16).unwrap();
        assert!(c.check().is_ok());
        let flag = c.witness.flag.unwrap();
        c.witness.flag = Some(!flag);
        c
    };
    assert_eq!(flipped_only.check(), Err(Error::Unsatisfied(13)));

    // flipping both the note-value branch and the blinded-commitment
    // branch together is satisfiable in either direction
    let params = get_poseidon_params();
    let generator = te_generator();
    let eg = elgamal::Parameters { generator };
    let apk = elgamal::keygen(&eg, &random_scalar());
    let ck0 = aegis_circuit::curve::random_point();
    let ck1 = aegis_circuit::curve::random_point();
    for flag in [false, true] {
        let c = ExchangeCircuit::build(
            params.clone(),
            generator,
            apk,
            ck0,
            ck1,
            random_scalar(),
            Felt::from_u64(3),
            Felt::from_u64(4),
            flag,
            5,
            100,
            200,
            random_fp(),
            random_fp(),
            random_fp(),
            random_fp(),
            random_scalar(),
            aegis_circuit::curve::random_point(),
            16,
        );
        assert!(c.check().is_ok());
    }
}

#[test]
fn end_to_end_zero_value_note() {
    // Register a note with v = 0, then spend it with v = 0 against a
    // depth-33 tree: satisfied.  Any v > 0 against the zero-value note
    // is unsatisfied.
    let params = get_poseidon_params();
    let generator = te_generator();
    let eg = elgamal::Parameters { generator };
    let apk = elgamal::keygen(&eg, &random_scalar());
    let pk_rcv = elgamal::keygen(&eg, &random_scalar());
    let sk = random_scalar();
    let o = random_fp();

    let register = RegisterCircuit::build(
        params.clone(),
        generator,
        apk,
        sk,
        o,
        random_scalar(),
        aegis_circuit::curve::random_point(),
    );
    assert!(register.check().is_ok());
    assert_eq!(register.witness.v.unwrap(), Felt::from_u64(0));

    let send = SendCircuit::build(
        params.clone(),
        generator,
        apk,
        pk_rcv,
        sk,
        0,
        0,
        o,
        random_fp(),
        random_fp(),
        random_scalar(),
        aegis_circuit::curve::random_point(),
        33,
    );
    // the spent note is the registered commitment
    assert_eq!(
        send.witness.cm_cur.unwrap(),
        register.instance.cm.unwrap()
    );
    assert!(send.check().is_ok());

    // a positive split from the zero-value note trips the range gate,
    // however consistently the commitments are recomputed
    let mut overdraw = send.clone();
    let one = Felt::from_u64(1);
    let addr = overdraw.witness.addr_snd.unwrap();
    let sn_cur = overdraw.instance.sn_cur.unwrap();
    let sn_new = overdraw.witness.sn_new.unwrap();
    let o_new = overdraw.witness.o_new.unwrap();
    let o_v = overdraw.witness.o_v.unwrap();
    let v_cur = overdraw.witness.v_cur.unwrap();
    let kx = overdraw.witness.k_point_x.unwrap().k;
    overdraw.witness.v = Some(one);
    overdraw.instance.cm_new = Some(hash4(&params, &addr, &fp_sub(&v_cur, &one), &sn_new, &o_new));
    overdraw.instance.cm_v = Some(hash6(
        &params, &addr, &one, &pk_rcv.x(), &pk_rcv.y(), &sn_cur, &o_v,
    ));
    let mut ct = overdraw.instance.ct_bar.clone().unwrap();
    ct[1] = fp_add(&hash2(&params, &kx, &Felt::from_u64(1)), &one);
    overdraw.instance.ct_bar = Some(ct);
    assert_eq!(overdraw.check(), Err(Error::Unsatisfied(7)));
}

#[test]
fn receive_bounded_sum_gate() {
    // the merge passes while v + v_cur stays in the 64-bit range
    let c = ReceiveCircuit::generate_circuit(16).unwrap();
    assert!(c.check().is_ok());

    // an oversized prior balance trips the bounded-sum gate
    let mut big = c.clone();
    let huge = Felt::from_u64(u64::MAX - 1);
    big.witness.v_cur = Some(huge);
    assert_eq!(big.check(), Err(Error::Unsatisfied(3)));
}

#[test]
fn poseidon_circuit_rejects_a_wrong_digest() {
    let params = get_poseidon_params();
    let message = Felt::from_u64(77);
    let digest = hash1(&params, &message);
    let good = PoseidonCircuit::new(params.clone(), digest, message);
    assert!(good.check().is_ok());

    let bad = PoseidonCircuit::new(params.clone(), message, message);
    assert_eq!(bad.check(), Err(Error::Unsatisfied(0)));

    let mut unassigned = good.clone();
    unassigned.message = None;
    assert_eq!(unassigned.check(), Err(Error::MissingAssignment));
}

#[test]
fn sha256_circuit_digest_of_five() {
    // the digest of the 32-byte little-endian encoding of five
    let expected: Vec<u8> = vec![
        170, 231, 97, 55, 127, 59, 79, 31, 7, 217, 130, 120, 59, 144, 35, 20, 182, 26, 156, 190,
        108, 207, 223, 169, 101, 89, 3, 159, 7, 227, 50, 237,
    ];
    let c = Sha256Circuit::generate_circuit().unwrap();
    assert!(c.check().is_ok());
    assert_eq!(c.digest.clone().unwrap(), expected);
    assert_eq!(c.message.unwrap(), Felt::from_u64(5));

    // a tampered digest is unsatisfied; a truncated one is malformed
    let mut bad = c.clone();
    let mut d = expected.clone();
    d[0] ^= 1;
    bad.digest = Some(d);
    assert_eq!(bad.check(), Err(Error::Unsatisfied(0)));

    let mut short = c.clone();
    short.digest = Some(vec![0; 31]);
    assert_eq!(short.check(), Err(Error::MalformedInput));
}
