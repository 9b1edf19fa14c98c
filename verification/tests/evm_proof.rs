use tdx::error::TdxError;
use tdx::evm_proof::{check_public_values, contract_inputs, pad_vkey, split_commas, ContractInputs};

const PROOF: &str = "11,22,33,44,55,66,77,88,99,1010";

fn io(text: &str) -> TdxError {
    TdxError::IO(text.to_string())
}

#[test]
fn vkey_is_filled_up_to_sixty_four_digits() {
    assert_eq!(
        pad_vkey("ff"),
        "0x00000000000000000000000000000000000000000000000000000000000000ff"
    );
    assert_eq!(
        pad_vkey(""),
        "0x0000000000000000000000000000000000000000000000000000000000000000"
    );
    let full = "a".repeat(64);
    assert_eq!(pad_vkey(&full), format!("0x{full}"));
    let almost = "b".repeat(63);
    assert_eq!(pad_vkey(&almost), format!("0x0{almost}"));
}

#[test]
fn longer_vkey_is_not_cut() {
    let long = "c".repeat(70);
    assert_eq!(pad_vkey(&long), format!("0x{long}"));
}

#[test]
fn text_is_parted_at_its_commas() {
    assert_eq!(split_commas("a,b,c"), vec!["a", "b", "c"]);
    assert_eq!(split_commas("abc"), vec!["abc"]);
    assert_eq!(split_commas(""), vec![""]);
    assert_eq!(split_commas(","), vec!["", ""]);
    assert_eq!(split_commas("a,,b,"), vec!["a", "", "b", ""]);
    assert_eq!(split_commas(",é,ö"), vec!["", "é", "ö"]);
    assert_eq!(split_commas(" 1 , 2 "), vec![" 1 ", " 2 "]);
}

#[test]
fn public_values_are_checked_behind_their_first_two_bytes() {
    assert!(check_public_values("0x"));
    assert!(check_public_values("0x0123456789abcdefABCDEF"));
    assert!(check_public_values("zz00"));
    assert!(check_public_values("é00"));
    assert!(!check_public_values(""));
    assert!(!check_public_values("0"));
    assert!(!check_public_values("0x0g"));
    assert!(!check_public_values("0x12 "));
    assert!(!check_public_values("0x12é"));
    assert!(!check_public_values("0é12"));
    assert!(!check_public_values("€12"));
}

#[test]
fn inputs_of_the_verifier() {
    let inputs = contract_inputs("255", PROOF, "  0x00ab\n").unwrap();
    assert_eq!(
        inputs,
        ContractInputs {
            riscv_vkey: "0x00000000000000000000000000000000000000000000000000000000000000ff"
                .to_string(),
            proof: vec!["11", "22", "33", "44", "55", "66", "77", "88"]
                .into_iter()
                .map(String::from)
                .collect(),
            public_values: "0x0x00ab".to_string(),
        }
    );
}

#[test]
fn large_vkey_hash_is_written_in_hexadecimal() {
    let decimal = "115792089237316195423570985008687907853269984665640564039457584007913129639935";
    let inputs = contract_inputs(decimal, PROOF, "0x").unwrap();
    assert_eq!(inputs.riscv_vkey, format!("0x{}", "f".repeat(64)));
    let inputs = contract_inputs("0", PROOF, "0x").unwrap();
    assert_eq!(inputs.riscv_vkey, format!("0x{}", "0".repeat(64)));
    let inputs = contract_inputs("4096", "1,2,3,4,5,6,7,8", "0x").unwrap();
    assert_eq!(inputs.riscv_vkey, format!("0x{}1000", "0".repeat(60)));
    assert_eq!(inputs.proof.len(), 8);
}

#[test]
fn vkey_hash_that_is_no_decimal_number_is_refused() {
    for text in ["", "0x10", "12a", "1 2", "ff"] {
        assert_eq!(contract_inputs(text, PROOF, "0x"), Err(io("Failed to parse vkey hash")));
    }
}

#[test]
fn proof_with_fewer_than_eight_values_is_refused() {
    for proof in ["", "1", "1,2,3,4,5,6,7"] {
        assert_eq!(
            contract_inputs("1", proof, "0x"),
            Err(io("Proof holds fewer than eight values"))
        );
    }
    assert!(contract_inputs("1", ",,,,,,,", "0x").is_ok());
}

#[test]
fn public_values_that_are_no_hexadecimal_digits_are_refused() {
    for values in ["", " ", "0", "0xzz", "0x12 34"] {
        assert_eq!(
            contract_inputs("1", PROOF, values),
            Err(io("Invalid hex format in pv file"))
        );
    }
}

#[test]
fn vkey_hash_is_looked_at_first_and_the_proof_second() {
    assert_eq!(contract_inputs("x", "", ""), Err(io("Failed to parse vkey hash")));
    assert_eq!(contract_inputs("1", "", ""), Err(io("Proof holds fewer than eight values")));
}
