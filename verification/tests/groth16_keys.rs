//! Sizes of the proving and verifying keys that the pairing-based
//! backend derives for the Receive and Exchange relations.
//!
//! Each relation is synthesized as a rank-1 constraint system mirroring
//! the library's checker, handed to the Groth16 setup over BN254, and
//! the keys are serialized in memory (compressed and uncompressed) to
//! report their sizes.

use aegis_circuit::circuits::exchange_circuit::ExchangeCircuit;
use aegis_circuit::circuits::receive_circuit::ReceiveCircuit;
use aegis_circuit::circuits::MockingCircuit;
use aegis_circuit::curve::Point;
use aegis_circuit::field::Felt;
use aegis_circuit::merkle::Path;

use ark_bn254::{Bn254, Fr};
use ark_crypto_primitives::crh::poseidon::constraints::{CRHGadget, CRHParametersVar, TwoToOneCRHGadget};
use ark_crypto_primitives::crh::{CRHSchemeGadget, TwoToOneCRHSchemeGadget};
use ark_crypto_primitives::snark::SNARK;
use ark_crypto_primitives::sponge::poseidon::{find_poseidon_ark_and_mds, PoseidonConfig};
use ark_ec::CurveGroup;
use ark_ed_on_bn254::constraints::EdwardsVar;
use ark_ed_on_bn254::{EdwardsAffine, EdwardsProjective};
use ark_ff::{BigInt, PrimeField};
use ark_groth16::Groth16;
use ark_r1cs_std::alloc::AllocVar;
use ark_r1cs_std::boolean::Boolean;
use ark_r1cs_std::eq::EqGadget;
use ark_r1cs_std::fields::fp::FpVar;
use ark_r1cs_std::fields::FieldVar;
use ark_r1cs_std::groups::CurveVar;
use ark_r1cs_std::select::CondSelectGadget;
use ark_r1cs_std::uint32::UInt32;
use ark_r1cs_std::ToBitsGadget;
use ark_relations::r1cs::{ConstraintSynthesizer, ConstraintSystemRef, SynthesisError};
use ark_serialize::CanonicalSerialize;

fn poseidon_cfg() -> PoseidonConfig<Fr> {
    let (ark, mds) = find_poseidon_ark_and_mds::<Fr>(254, 2, 8, 57, 0);
    PoseidonConfig::new(8, 57, 5, mds, ark, 2, 1)
}

fn fr(f: &Felt) -> Fr {
    let l = f.limbs();
    Fr::from_bigint(BigInt::new([l.0, l.1, l.2, l.3])).unwrap()
}

fn pt(p: &Point) -> EdwardsProjective {
    EdwardsProjective::from(EdwardsAffine::new_unchecked(fr(&p.x()), fr(&p.y())))
}

fn hash_var(
    params: &CRHParametersVar<Fr>,
    input: &[FpVar<Fr>],
) -> Result<FpVar<Fr>, SynthesisError> {
    Ok(CRHGadget::<Fr>::evaluate(params, input).unwrap())
}

/// Recomputes a Merkle root in-circuit: the position bits choose the
/// left/right slot at each level.
fn climb_var(
    params: &CRHParametersVar<Fr>,
    leaf_hash: &FpVar<Fr>,
    bits: &[Boolean<Fr>],
    siblings: &[FpVar<Fr>],
) -> Result<FpVar<Fr>, SynthesisError> {
    let mut curr = leaf_hash.clone();
    for (i, sib) in siblings.iter().enumerate() {
        let left = FpVar::conditionally_select(&bits[i], sib, &curr)?;
        let right = FpVar::conditionally_select(&bits[i], &curr, sib)?;
        curr = TwoToOneCRHGadget::<Fr>::evaluate(params, &left, &right).unwrap();
    }
    Ok(curr)
}

/// The siblings of a path in climbing order: leaf sibling first, then
/// the stored levels from the bottom up.
fn sibling_vars(
    cs: ConstraintSystemRef<Fr>,
    path: &Path,
) -> Result<Vec<FpVar<Fr>>, SynthesisError> {
    let mut out = vec![FpVar::new_witness(cs.clone(), || Ok(fr(&path.leaf_sibling_hash)))?];
    for f in path.auth_path.iter().rev() {
        out.push(FpVar::new_witness(cs.clone(), || Ok(fr(f)))?);
    }
    Ok(out)
}

/// One keystream slot: `H(k, i) + m`, enforced equal to the input slot.
fn enforce_slot(
    params: &CRHParametersVar<Fr>,
    kx: &FpVar<Fr>,
    i: u64,
    m: &FpVar<Fr>,
    ct: &FpVar<Fr>,
) -> Result<(), SynthesisError> {
    let nonce = FpVar::constant(Fr::from(i));
    let h = TwoToOneCRHGadget::<Fr>::evaluate(params, kx, &nonce).unwrap();
    (h + m).enforce_equal(ct)
}

struct ReceiveR1cs {
    cfg: PoseidonConfig<Fr>,
    generator: Point,
    body: ReceiveCircuit,
}

impl ConstraintSynthesizer<Fr> for ReceiveR1cs {
    fn generate_constraints(self, cs: ConstraintSystemRef<Fr>) -> Result<(), SynthesisError> {
        let w = &self.body.witness;
        let inst = &self.body.instance;
        let params = CRHParametersVar::new_constant(cs.clone(), self.cfg.clone())?;
        let gen_var = EdwardsVar::new_constant(cs.clone(), pt(&self.generator))?;

        let new_in = |x: &Option<Felt>| {
            let v = fr(&x.unwrap());
            FpVar::new_input(cs.clone(), move || Ok(v))
        };
        let new_wit = |x: &Option<Felt>| {
            let v = fr(&x.unwrap());
            FpVar::new_witness(cs.clone(), move || Ok(v))
        };
        let sn_v = new_in(&inst.sn_v)?;
        let sn_cur = new_in(&inst.sn_cur)?;
        let cm_new = new_in(&inst.cm_new)?;
        let rt = new_in(&inst.rt)?;
        let apk = EdwardsVar::new_input(cs.clone(), || Ok(pt(&inst.apk.unwrap())))?;
        let g_r = EdwardsVar::new_input(cs.clone(), || Ok(pt(&inst.g_r.unwrap())))?;
        let k_u = EdwardsVar::new_input(cs.clone(), || Ok(pt(&inst.k_u.unwrap())))?;
        let k_a = EdwardsVar::new_input(cs.clone(), || Ok(pt(&inst.k_a.unwrap())))?;

        let pk_rcv = EdwardsVar::new_witness(cs.clone(), || Ok(pt(&w.pk_rcv.unwrap())))?;
        let sk_rcv = new_wit(&w.sk_rcv)?;
        let addr_snd = new_wit(&w.addr_snd)?;
        let addr_rcv = new_wit(&w.addr_rcv)?;
        let v = new_wit(&w.v)?;
        let v_cur = new_wit(&w.v_cur)?;
        let o_v = new_wit(&w.opening_v)?;
        let o_cur = new_wit(&w.opening_cur)?;
        let o_new = new_wit(&w.opening_new)?;
        let sn_new = new_wit(&w.sn_new)?;
        let cm_v = new_wit(&w.cm_v)?;
        let cm_cur = new_wit(&w.cm_cur)?;
        let k = EdwardsVar::new_witness(cs.clone(), || Ok(pt(&w.k.unwrap())))?;
        let r = new_wit(&w.r)?;
        let kx = {
            let val = fr(&w.k_point_x.unwrap().k);
            FpVar::new_witness(cs.clone(), move || Ok(val))?
        };

        let pk_x = pk_rcv.x.clone();
        let pk_y = pk_rcv.y.clone();

        // transfer commitment
        let cm_v_c = hash_var(
            &params,
            &[addr_snd.clone(), v.clone(), o_v.clone(), pk_x.clone(), pk_y.clone(), sn_cur.clone()],
        )?;
        cm_v.enforce_equal(&cm_v_c)?;
        // serial numbers and derived opening
        hash_var(&params, &[o_v.clone(), sk_rcv.clone()])?.enforce_equal(&sn_v)?;
        hash_var(&params, &[o_cur.clone(), sk_rcv.clone()])?.enforce_equal(&sn_cur)?;
        hash_var(&params, &[sn_cur.clone(), sk_rcv.clone()])?.enforce_equal(&sn_new)?;
        hash_var(&params, &[o_cur.clone(), sk_rcv.clone()])?.enforce_equal(&o_new)?;
        // two-leaf membership
        let bits = UInt32::new_witness(cs.clone(), || Ok(w.leaf_pos.unwrap()))?.to_bits_le();
        let leaf_hash = hash_var(&params, &[cm_v.clone(), cm_cur.clone()])?;
        let siblings = sibling_vars(cs.clone(), w.path.as_ref().unwrap())?;
        climb_var(&params, &leaf_hash, &bits, &siblings)?.enforce_equal(&rt)?;
        // bounded sum
        let sum = &v + &v_cur;
        let bound = Fr::from(u64::MAX - 1);
        Boolean::enforce_smaller_or_equal_than_le(
            sum.to_non_unique_bits_le()?.as_slice(),
            bound.into_bigint(),
        )?;
        // merged commitment
        let cm_new_c = hash_var(
            &params,
            &[addr_rcv.clone(), sum.clone(), o_new.clone(), pk_x.clone(), pk_y.clone(), sn_new.clone()],
        )?;
        cm_new.enforce_equal(&cm_new_c)?;
        // the two key wraps share the ephemeral exponent
        let r_bits = r.to_non_unique_bits_le()?;
        let c1 = gen_var.scalar_mul_le(r_bits.iter())?;
        c1.enforce_equal(&g_r)?;
        (pk_rcv.scalar_mul_le(r_bits.iter())? + &k).enforce_equal(&k_u)?;
        (apk.scalar_mul_le(r_bits.iter())? + &k).enforce_equal(&k_a)?;
        // re-encryption consistency of the six disclosed slots
        let ct = w.ct.as_ref().unwrap();
        let plain = [addr_snd, v, o_v, sn_cur, pk_x, pk_y];
        for (i, m) in plain.iter().enumerate() {
            let slot = fr(&ct[i]);
            let ct_var = FpVar::new_input(cs.clone(), move || Ok(slot))?;
            enforce_slot(&params, &kx, i as u64, m, &ct_var)?;
        }
        Ok(())
    }
}

struct ExchangeR1cs {
    cfg: PoseidonConfig<Fr>,
    generator: Point,
    body: ExchangeCircuit,
}

impl ConstraintSynthesizer<Fr> for ExchangeR1cs {
    fn generate_constraints(self, cs: ConstraintSystemRef<Fr>) -> Result<(), SynthesisError> {
        let w = &self.body.witness;
        let inst = &self.body.instance;
        let params = CRHParametersVar::new_constant(cs.clone(), self.cfg.clone())?;
        let gen_var = EdwardsVar::new_constant(cs.clone(), pt(&self.generator))?;
        let half = (Fr::from(-1i64) / Fr::from(2u64)).into_bigint();

        let new_in = |x: &Option<Felt>| {
            let v = fr(&x.unwrap());
            FpVar::new_input(cs.clone(), move || Ok(v))
        };
        let new_wit = |x: &Option<Felt>| {
            let v = fr(&x.unwrap());
            FpVar::new_witness(cs.clone(), move || Ok(v))
        };
        let rt = new_in(&inst.rt)?;
        let ck = inst.ck.as_ref().unwrap();
        let ck0 = EdwardsVar::new_input(cs.clone(), || Ok(pt(&ck[0])))?;
        let ck1 = EdwardsVar::new_input(cs.clone(), || Ok(pt(&ck[1])))?;
        let addr_d = new_in(&inst.addr_d)?;
        let sn_cur = new_in(&inst.sn_cur)?;
        let cm_new = new_in(&inst.cm_new)?;
        let cm_new_d = EdwardsVar::new_input(cs.clone(), || Ok(pt(&inst.cm_new_d.unwrap())))?;
        let cm_v_d = EdwardsVar::new_input(cs.clone(), || Ok(pt(&inst.cm_v_d.unwrap())))?;
        let apk = EdwardsVar::new_input(cs.clone(), || Ok(pt(&inst.apk.unwrap())))?;
        let g_r = EdwardsVar::new_input(cs.clone(), || Ok(pt(&inst.g_r.unwrap())))?;
        let k_a = EdwardsVar::new_input(cs.clone(), || Ok(pt(&inst.k_a.unwrap())))?;

        let sk = new_wit(&w.sk)?;
        let pk = EdwardsVar::new_witness(cs.clone(), || Ok(pt(&w.pk.unwrap())))?;
        let sk_d = w.sk_d.as_ref().unwrap();
        let sk_d0 = {
            let val = fr(&sk_d[0]);
            FpVar::new_witness(cs.clone(), move || Ok(val))?
        };
        let sk_d1 = {
            let val = fr(&sk_d[1]);
            FpVar::new_witness(cs.clone(), move || Ok(val))?
        };
        let pk_d = EdwardsVar::new_witness(cs.clone(), || Ok(pt(&w.pk_d.unwrap())))?;
        let addr = new_wit(&w.addr)?;
        let v = new_wit(&w.v)?;
        let v_cur = new_wit(&w.v_cur)?;
        let v_cur_d = new_wit(&w.v_cur_d)?;
        let o_cur = new_wit(&w.o_cur)?;
        let o_cur_d = new_wit(&w.o_cur_d)?;
        let o_new = new_wit(&w.o_new)?;
        let o_v_d = new_wit(&w.o_v_d)?;
        let sn_new = new_wit(&w.sn_new)?;
        let cm_cur = new_wit(&w.cm_cur)?;
        let cm_cur_d = EdwardsVar::new_witness(cs.clone(), || Ok(pt(&w.cm_cur_d.unwrap())))?;
        let flag = Boolean::new_witness(cs.clone(), || Ok(w.flag.unwrap()))?;
        let k = EdwardsVar::new_witness(cs.clone(), || Ok(pt(&w.k.unwrap())))?;
        let r = new_wit(&w.r)?;
        let kx = {
            let val = fr(&w.k_x.unwrap().k);
            FpVar::new_witness(cs.clone(), move || Ok(val))?
        };

        // keypairs
        let sk_bits = sk.to_non_unique_bits_le()?;
        gen_var.scalar_mul_le(sk_bits.iter())?.enforce_equal(&pk)?;
        let d0 = ck0.scalar_mul_le(sk_d0.to_non_unique_bits_le()?.iter())?;
        let d1 = ck1.scalar_mul_le(sk_d1.to_non_unique_bits_le()?.iter())?;
        (d0 + d1).enforce_equal(&pk_d)?;
        // address bindings
        hash_var(&params, &[pk.x.clone(), pk.y.clone()])?.enforce_equal(&addr)?;
        hash_var(&params, &[pk_d.x.clone(), pk_d.y.clone()])?.enforce_equal(&addr_d)?;
        // ranges
        v.enforce_not_equal(&FpVar::constant(Fr::from(0u64)))?;
        for x in [&v, &v_cur, &v_cur_d] {
            Boolean::enforce_smaller_or_equal_than_le(x.to_non_unique_bits_le()?.as_slice(), half)?;
        }
        let branch = FpVar::conditionally_select(&flag, &(&v_cur_d - &v), &(&v_cur - &v))?;
        Boolean::enforce_smaller_or_equal_than_le(branch.to_non_unique_bits_le()?.as_slice(), half)?;
        // note chain
        hash_var(&params, &[addr.clone(), v_cur.clone(), sn_cur.clone(), o_cur.clone()])?
            .enforce_equal(&cm_cur)?;
        let bits = UInt32::new_witness(cs.clone(), || Ok(w.leaf_pos.unwrap()))?.to_bits_le();
        let leaf_hash = hash_var(&params, &[cm_cur.clone()])?;
        let siblings = sibling_vars(cs.clone(), w.tree_proof.as_ref().unwrap())?;
        climb_var(&params, &leaf_hash, &bits, &siblings)?.enforce_equal(&rt)?;
        hash_var(&params, &[sk.clone(), o_cur.clone()])?.enforce_equal(&sn_cur)?;
        hash_var(&params, &[sk.clone(), o_new.clone()])?.enforce_equal(&sn_new)?;
        let cm_new_v = FpVar::conditionally_select(&flag, &(&v_cur + &v), &(&v_cur - &v))?;
        hash_var(&params, &[addr.clone(), cm_new_v, sn_new.clone(), o_new.clone()])?
            .enforce_equal(&cm_new)?;
        // blinded directional chain
        let b0 = ck0.scalar_mul_le(v_cur_d.to_non_unique_bits_le()?.iter())?;
        let b1 = ck1.scalar_mul_le(o_cur_d.to_non_unique_bits_le()?.iter())?;
        (b0 + b1).enforce_equal(&cm_cur_d)?;
        let v_d = FpVar::conditionally_select(&flag, &v.negate()?, &v)?;
        let d0 = ck0.scalar_mul_le(v_d.to_non_unique_bits_le()?.iter())?;
        let d1 = ck1.scalar_mul_le(o_v_d.to_non_unique_bits_le()?.iter())?;
        (d0 + d1).enforce_equal(&cm_v_d)?;
        (cm_cur_d.clone() + cm_v_d.clone()).enforce_equal(&cm_new_d)?;
        // key wrap and disclosure
        let r_bits = r.to_non_unique_bits_le()?;
        gen_var.scalar_mul_le(r_bits.iter())?.enforce_equal(&g_r)?;
        (apk.scalar_mul_le(r_bits.iter())? + &k).enforce_equal(&k_a)?;
        kx.enforce_equal(&k.x)?;
        let flag_fp = FpVar::conditionally_select(
            &flag,
            &FpVar::constant(Fr::from(1u64)),
            &FpVar::constant(Fr::from(0u64)),
        )?;
        let ct = inst.ct_bar.as_ref().unwrap();
        let plain = [pk.x.clone(), pk.y.clone(), addr_d, v, flag_fp, o_v_d];
        for (i, m) in plain.iter().enumerate() {
            let slot = fr(&ct[i]);
            let ct_var = FpVar::new_input(cs.clone(), move || Ok(slot))?;
            enforce_slot(&params, &kx, i as u64, m, &ct_var)?;
        }
        Ok(())
    }
}

#[test]
fn receive_test_test_pk_vk_size() {
    let body = ReceiveCircuit::generate_circuit(33).unwrap();
    assert!(body.check().is_ok());
    let generator = body.generator;
    let circuit = ReceiveR1cs { cfg: poseidon_cfg(), generator, body };

    let mut rng = rand::thread_rng();
    let (pk, vk) = Groth16::<Bn254>::circuit_specific_setup(circuit, &mut rng).unwrap();

    let mut pk_bytes = Vec::new();
    pk.serialize_compressed(&mut pk_bytes).unwrap();
    let mut pk_bytes_uncompressed = Vec::new();
    pk.serialize_uncompressed(&mut pk_bytes_uncompressed).unwrap();
    let mut vk_bytes = Vec::new();
    vk.serialize_compressed(&mut vk_bytes).unwrap();
    let mut vk_bytes_uncompressed = Vec::new();
    vk.serialize_uncompressed(&mut vk_bytes_uncompressed).unwrap();

    println!("pk size: {}", pk_bytes.len());
    println!("vk size: {}", vk_bytes.len());
    println!("pk uncompressed size: {}", pk_bytes_uncompressed.len());
    println!("vk uncompressed size: {}", vk_bytes_uncompressed.len());
}

#[test]
fn exchange_test_test_pk_vk_size() {
    let body = ExchangeCircuit::generate_circuit(33).unwrap();
    assert!(body.check().is_ok());
    let generator = body.generator;
    let circuit = ExchangeR1cs { cfg: poseidon_cfg(), generator, body };

    let mut rng = rand::thread_rng();
    let (pk, vk) = Groth16::<Bn254>::circuit_specific_setup(circuit, &mut rng).unwrap();

    let mut pk_bytes = Vec::new();
    pk.serialize_compressed(&mut pk_bytes).unwrap();
    let mut pk_bytes_uncompressed = Vec::new();
    pk.serialize_uncompressed(&mut pk_bytes_uncompressed).unwrap();
    let mut vk_bytes = Vec::new();
    vk.serialize_compressed(&mut vk_bytes).unwrap();
    let mut vk_bytes_uncompressed = Vec::new();
    vk.serialize_uncompressed(&mut vk_bytes_uncompressed).unwrap();

    println!("pk size: {}", pk_bytes.len());
    println!("vk size: {}", vk_bytes.len());
    println!("pk uncompressed size: {}", pk_bytes_uncompressed.len());
    println!("vk uncompressed size: {}", vk_bytes_uncompressed.len());
}
