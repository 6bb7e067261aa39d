//! Rendering of the mismatch log: the reftest failure report with its
//! statistics and the two embedded data URIs. The driver only writes the
//! rendered text to a file.
use vstd::prelude::*;
use vstd::string::StringExecFns;

verus! {

/// The character for one decimal digit.
pub open spec fn digit_char(d: int) -> char {
    if d == 0 {
        '0'
    } else if d == 1 {
        '1'
    } else if d == 2 {
        '2'
    } else if d == 3 {
        '3'
    } else if d == 4 {
        '4'
    } else if d == 5 {
        '5'
    } else if d == 6 {
        '6'
    } else if d == 7 {
        '7'
    } else if d == 8 {
        '8'
    } else {
        '9'
    }
}

/// The decimal numeral of `n`, most significant digit first.
pub open spec fn decimal(n: int) -> Seq<char>
    decreases n,
{
    if n < 10 {
        seq![digit_char(n)]
    } else {
        decimal(n / 10).push(digit_char(n % 10))
    }
}

fn digit_str(d: usize) -> (r: &'static str)
    requires
        d < 10,
    ensures
        r@ == seq![digit_char(d as int)],
{
    if d == 0 {
        proof {
            reveal_strlit("0");
            assert("0"@ =~= seq![digit_char(0)]);
        }
        "0"
    } else if d == 1 {
        proof {
            reveal_strlit("1");
            assert("1"@ =~= seq![digit_char(1)]);
        }
        "1"
    } else if d == 2 {
        proof {
            reveal_strlit("2");
            assert("2"@ =~= seq![digit_char(2)]);
        }
        "2"
    } else if d == 3 {
        proof {
            reveal_strlit("3");
            assert("3"@ =~= seq![digit_char(3)]);
        }
        "3"
    } else if d == 4 {
        proof {
            reveal_strlit("4");
            assert("4"@ =~= seq![digit_char(4)]);
        }
        "4"
    } else if d == 5 {
        proof {
            reveal_strlit("5");
            assert("5"@ =~= seq![digit_char(5)]);
        }
        "5"
    } else if d == 6 {
        proof {
            reveal_strlit("6");
            assert("6"@ =~= seq![digit_char(6)]);
        }
        "6"
    } else if d == 7 {
        proof {
            reveal_strlit("7");
            assert("7"@ =~= seq![digit_char(7)]);
        }
        "7"
    } else if d == 8 {
        proof {
            reveal_strlit("8");
            assert("8"@ =~= seq![digit_char(8)]);
        }
        "8"
    } else {
        proof {
            reveal_strlit("9");
            assert("9"@ =~= seq![digit_char(d as int)]);
        }
        "9"
    }
}

/// Render `n` as its decimal numeral.
pub fn decimal_string(n: usize) -> (r: String)
    ensures
        r@ == decimal(n as int),
    decreases n,
{
    if n < 10 {
        String::from_str(digit_str(n))
    } else {
        let mut s = decimal_string(n / 10);
        s.append(digit_str(n % 10));
        proof {
            assert(s@ =~= decimal(n as int));
        }
        s
    }
}

/// The full text of the mismatch log, line by line: the failure header
/// with the statistics, the two embedded images, and the end marker.
pub open spec fn log_text(
    test_path: Seq<char>,
    ref_path: Seq<char>,
    max_difference: int,
    count_different: int,
    test_uri: Seq<char>,
    ref_uri: Seq<char>,
) -> Seq<char> {
    "REFTEST TEST-UNEXPECTED-FAIL | "@ + test_path + " == "@ + ref_path
        + " | image comparison, max difference: "@ + decimal(max_difference)
        + ", number of differing pixels: "@ + decimal(count_different) + "\n"@
        + "REFTEST IMAGE 1 (TEST): "@ + test_uri + "\n"@ + "REFTEST IMAGE 2 (REFERENCE): "@
        + ref_uri + "\n"@ + "REFTEST TEST-END | "@ + test_path + " == "@ + ref_path + "\n"@
}

/// Render the mismatch log that is written when two images differ.
pub fn render_log(
    test_path: &str,
    ref_path: &str,
    max_difference: usize,
    count_different: usize,
    test_uri: &str,
    ref_uri: &str,
) -> (r: String)
    ensures
        r@ == log_text(
            test_path@,
            ref_path@,
            max_difference as int,
            count_different as int,
            test_uri@,
            ref_uri@,
        ),
{
    let mut s = String::from_str("REFTEST TEST-UNEXPECTED-FAIL | ");
    s.append(test_path);
    s.append(" == ");
    s.append(ref_path);
    s.append(" | image comparison, max difference: ");
    let md = decimal_string(max_difference);
    s.append(md.as_str());
    s.append(", number of differing pixels: ");
    let cd = decimal_string(count_different);
    s.append(cd.as_str());
    s.append("\n");
    s.append("REFTEST IMAGE 1 (TEST): ");
    s.append(test_uri);
    s.append("\n");
    s.append("REFTEST IMAGE 2 (REFERENCE): ");
    s.append(ref_uri);
    s.append("\n");
    s.append("REFTEST TEST-END | ");
    s.append(test_path);
    s.append(" == ");
    s.append(ref_path);
    s.append("\n");
    s
}

} // verus!
