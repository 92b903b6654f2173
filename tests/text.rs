use rpgassist::details::ProperCaseExt;

#[test]
fn proper_case_capitalizes_after_non_letters() {
    assert_eq!("a test-string (with fawns)".proper_case(), "A Test-String (With Fawns)");
    assert_eq!("aDaM cApLiTtEr".proper_case(), "Adam Caplitter");
    assert_eq!("".proper_case(), "");
    assert_eq!("ämmä öljy".proper_case(), "Ämmä Öljy");
}
