//! Alias completeness: every registered alias spelling is yielded by its
//! Alias value, and case-insensitive matching against the registered
//! spellings resolves each query to exactly one alias.

use charsets::charset::Alias as AliasTrait;
use charsets::charset::Str as StrTrait;
use charsets::charsets::iso8859_1_1987;
use charsets::charsets::iso8859_2_1987;
use charsets::charsets::iso8859_3_1988;
use charsets::charsets::us_ascii;
use charsets::charsets::utf_8;

fn check_registry<A: AliasTrait + Copy>(entries: &[(A, &str)]) {
    for (alias, spelling) in entries {
        assert_eq!(alias.name().as_bytes(), spelling.as_bytes());
    }
    // Case-insensitive matching over the registered spellings resolves each
    // query, in any casing, to the alias it was derived from.
    for (_, wanted) in entries {
        for query in [
            wanted.to_ascii_lowercase(),
            wanted.to_ascii_uppercase(),
            wanted.to_string(),
        ] {
            let matches: Vec<&str> = entries
                .iter()
                .map(|(_, s)| *s)
                .filter(|s| s.eq_ignore_ascii_case(&query))
                .collect();
            assert_eq!(matches, vec![*wanted], "query {query}");
        }
    }
}

#[test]
fn us_ascii_alias_registry() {
    check_registry(&[
        (us_ascii::Alias::AnsiX3_4_1968, "ANSI_X3.4-1968"),
        (us_ascii::Alias::AnsiX3_4_1986, "ANSI_X3.4-1986"),
        (us_ascii::Alias::Cp367, "cp367"),
        (us_ascii::Alias::CsAscii, "csAscii"),
        (us_ascii::Alias::Ibm367, "IBM367"),
        (us_ascii::Alias::Iso646Irv1991, "ISO_646.irv:1991"),
        (us_ascii::Alias::Iso646Us, "ISO646-US"),
        (us_ascii::Alias::IsoIr6, "iso-ir-6"),
        (us_ascii::Alias::Us, "us"),
        (us_ascii::Alias::UsAscii, "US-ASCII"),
    ]);
}

#[test]
fn iso8859_1_alias_registry() {
    check_registry(&[
        (iso8859_1_1987::Alias::Cp819, "CP819"),
        (iso8859_1_1987::Alias::CsIsoLatin1, "csISOLatin1"),
        (iso8859_1_1987::Alias::Ibm819, "IBM819"),
        (iso8859_1_1987::Alias::Iso8859_1, "ISO-8859-1"),
        (iso8859_1_1987::Alias::Iso8859_1Alt, "ISO_8859-1"),
        (iso8859_1_1987::Alias::IsoIr100, "iso-ir-100"),
        (iso8859_1_1987::Alias::L1, "l1"),
        (iso8859_1_1987::Alias::Latin1, "latin1"),
    ]);
}

#[test]
fn iso8859_2_alias_registry() {
    check_registry(&[
        (iso8859_2_1987::Alias::CsIsoLatin2, "csISOLatin2"),
        (iso8859_2_1987::Alias::Iso8859_2, "ISO-8859-2"),
        (iso8859_2_1987::Alias::Iso8859_2Alt, "ISO_8859-2"),
        (iso8859_2_1987::Alias::IsoIr101, "iso-ir-101"),
        (iso8859_2_1987::Alias::L2, "l2"),
        (iso8859_2_1987::Alias::Latin2, "latin2"),
    ]);
}

#[test]
fn iso8859_3_alias_registry() {
    check_registry(&[
        (iso8859_3_1988::Alias::CsIsoLatin3, "csISOLatin3"),
        (iso8859_3_1988::Alias::Iso8859_3, "ISO-8859-3"),
        (iso8859_3_1988::Alias::Iso8859_3Alt, "ISO_8859-3"),
        (iso8859_3_1988::Alias::IsoIr109, "iso-ir-109"),
        (iso8859_3_1988::Alias::L3, "l3"),
        (iso8859_3_1988::Alias::Latin3, "latin3"),
    ]);
}

#[test]
fn utf_8_alias_registry() {
    check_registry(&[(utf_8::Alias::CsUtf8, "csUTF8")]);
}

#[test]
fn alias_names_are_ascii_views() {
    let name = us_ascii::Alias::CsAscii.name();
    let direct = charsets::charsets::us_ascii::Str::decode(b"csAscii").unwrap();
    assert_eq!(name, direct);
}
