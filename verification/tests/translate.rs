use tapegen::backend::Backend;
use tapegen::lang::{Instr, Lang};
use tapegen::translate::{translate, translate_for_target, TranslateError};

const C_PROLOGUE: &str = "#include <stdio.h>\nint main() {char arr[30000] = {0}; char *ptr = arr;";
const C_EPILOGUE: &str = "return 0;}";
const GO_PROLOGUE: &str = "package main;import \"bufio\";import \"fmt\";import \"os\";var in = bufio.NewReader(os.Stdin);func getchar () uint8 { r,_,_ := in.ReadRune(); return uint8(r);};func main() {arr := make([]uint8, 30000);ptr := 0;";
const GO_EPILOGUE: &str = "}";

const INSTR_CHARS: [char; 8] = ['>', '<', '+', '-', '.', ',', '[', ']'];

const INSTRS: [Instr; 8] = [
    Instr::MoveRight,
    Instr::MoveLeft,
    Instr::Increment,
    Instr::Decrement,
    Instr::Output,
    Instr::Input,
    Instr::LoopOpen,
    Instr::LoopClose,
];

#[test]
fn translation_is_deterministic() {
    let src = "+[>,.<-]done";
    for b in [Backend::C, Backend::Go] {
        let first = translate(src, b);
        let second = translate(src, b);
        assert_eq!(first, second);
    }
}

#[test]
fn empty_source_emits_prologue_and_epilogue_only() {
    assert_eq!(
        translate("", Backend::C),
        format!("{}{}", C_PROLOGUE, C_EPILOGUE)
    );
    assert_eq!(
        translate("", Backend::Go),
        format!("{}{}", GO_PROLOGUE, GO_EPILOGUE)
    );
}

#[test]
fn each_instruction_emits_its_fragment_for_each_backend() {
    for b in [Backend::C, Backend::Go] {
        for (k, c) in INSTR_CHARS.iter().enumerate() {
            let src = c.to_string();
            let expected = format!(
                "{}{}{}",
                b.prologue(),
                b.fragment(INSTRS[k]),
                b.epilogue()
            );
            assert_eq!(translate(&src, b), expected);
        }
    }
}

#[test]
fn c_increment_program_exact_text() {
    assert_eq!(
        translate("+", Backend::C),
        "#include <stdio.h>\nint main() {char arr[30000] = {0}; char *ptr = arr;++*ptr;return 0;}"
    );
}

#[test]
fn go_increment_program_exact_text() {
    assert_eq!(
        translate("+", Backend::Go),
        format!("{}arr[ptr]+=1;{}", GO_PROLOGUE, GO_EPILOGUE)
    );
}

#[test]
fn non_instruction_characters_are_inert() {
    for b in [Backend::C, Backend::Go] {
        let plain = translate("++[-]", b);
        let noisy = translate("a+ +\n[ comment - here ]\t!", b);
        assert_eq!(plain, noisy);
    }
}

#[test]
fn inert_only_source_equals_empty_source() {
    for b in [Backend::C, Backend::Go] {
        assert_eq!(translate("nothing to do here\n", b), translate("", b));
    }
}

#[test]
fn balanced_loop_emits_structured_loop_c() {
    assert_eq!(
        translate("++[-]", Backend::C),
        format!(
            "{}++*ptr;++*ptr;while (*ptr) {{--*ptr;}}{}",
            C_PROLOGUE, C_EPILOGUE
        )
    );
}

#[test]
fn balanced_loop_emits_structured_loop_go() {
    assert_eq!(
        translate("++[-]", Backend::Go),
        format!(
            "{}arr[ptr]+=1;arr[ptr]+=1;for arr[ptr] != 0 {{arr[ptr]-=1;}};{}",
            GO_PROLOGUE, GO_EPILOGUE
        )
    );
}

#[test]
fn unbalanced_source_still_translates() {
    for b in [Backend::C, Backend::Go] {
        let out = translate("[+", b);
        let expected = format!(
            "{}{}{}{}",
            b.prologue(),
            b.fragment(Instr::LoopOpen),
            b.fragment(Instr::Increment),
            b.epilogue()
        );
        assert_eq!(out, expected);
        assert!(translate_for_target("]", b.target()).is_ok());
    }
}

#[test]
fn multi_target_artifacts_differ() {
    let src = "+.";
    let c_out = translate(src, Backend::C);
    let go_out = translate(src, Backend::Go);
    assert_ne!(c_out, go_out);
    assert_ne!(Backend::C.extension(), Backend::Go.extension());
}

#[test]
fn implemented_targets_translate_ok() {
    let c = translate_for_target("+", Lang::C).unwrap();
    assert_eq!(c, translate("+", Backend::C));
    let go = translate_for_target("+", Lang::Go).unwrap();
    assert_eq!(go, translate("+", Backend::Go));
}

#[test]
fn unsupported_targets_fail_fast() {
    for l in [
        Lang::Interpret,
        Lang::Java,
        Lang::Python,
        Lang::JavaScript,
        Lang::Rust,
    ] {
        match translate_for_target("+", l) {
            Err(TranslateError::UnsupportedTarget(got)) => assert_eq!(got, l),
            Ok(_) => panic!("target without a backend must not translate"),
        }
    }
}

#[test]
fn unsupported_target_message_names_the_target() {
    let e = TranslateError::UnsupportedTarget(Lang::Java);
    assert_eq!(e.message(), "target not yet supported: Java");
}

#[test]
fn backend_selection_matches_target() {
    assert_eq!(Backend::for_target(Lang::C), Some(Backend::C));
    assert_eq!(Backend::for_target(Lang::Go), Some(Backend::Go));
    assert_eq!(Backend::for_target(Lang::Java), None);
    assert_eq!(Backend::for_target(Lang::Interpret), None);
}
