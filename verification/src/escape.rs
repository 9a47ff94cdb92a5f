use vstd::prelude::*;

verus! {

/// Escaping of one character under the data grammar: carriage return,
/// line feed and the percent sign are percent-encoded, all else is
/// literal.
pub open spec fn esc_data_char(c: char) -> Seq<char> {
    if c == '\r' {
        seq!['%', '0', 'D']
    } else if c == '\n' {
        seq!['%', '0', 'A']
    } else if c == '%' {
        seq!['%', '2', '5']
    } else {
        seq![c]
    }
}

/// Escaping of one character under the property grammar: the data
/// grammar plus the colon and the comma.
pub open spec fn esc_prop_char(c: char) -> Seq<char> {
    if c == ':' {
        seq!['%', '3', 'A']
    } else if c == ',' {
        seq!['%', '2', 'C']
    } else {
        esc_data_char(c)
    }
}

/// The data escaping of `s[i..]`.
pub open spec fn escaped_data_from(s: Seq<char>, i: int) -> Seq<char>
    decreases s.len() - i,
{
    if i < 0 || i >= s.len() {
        Seq::empty()
    } else {
        esc_data_char(s[i]) + escaped_data_from(s, i + 1)
    }
}

/// The data escaping of a whole string.
pub open spec fn escaped_data(s: Seq<char>) -> Seq<char> {
    escaped_data_from(s, 0)
}

/// The property escaping of `s[i..]`.
pub open spec fn escaped_prop_from(s: Seq<char>, i: int) -> Seq<char>
    decreases s.len() - i,
{
    if i < 0 || i >= s.len() {
        Seq::empty()
    } else {
        esc_prop_char(s[i]) + escaped_prop_from(s, i + 1)
    }
}

/// The property escaping of a whole string.
pub open spec fn escaped_prop(s: Seq<char>) -> Seq<char> {
    escaped_prop_from(s, 0)
}

/// Escapes a string for the message position of a CI annotation line.
pub fn escape_data(value: &Vec<char>) -> (r: Vec<char>)
    ensures
        r@ == escaped_data(value@),
{
    let mut r: Vec<char> = Vec::new();
    let mut i: usize = 0;
    while i < value.len()
        invariant
            i <= value.len(),
            r@ + escaped_data_from(value@, i as int) == escaped_data(value@),
        decreases value.len() - i,
    {
        let ghost r0 = r@;
        let c = value[i];
        if c == '\r' {
            r.push('%');
            r.push('0');
            r.push('D');
        } else if c == '\n' {
            r.push('%');
            r.push('0');
            r.push('A');
        } else if c == '%' {
            r.push('%');
            r.push('2');
            r.push('5');
        } else {
            r.push(c);
        }
        proof {
            assert(r@ =~= r0 + esc_data_char(value@[i as int]));
            assert(r@ + escaped_data_from(value@, i + 1) =~= r0 + escaped_data_from(
                value@,
                i as int,
            ));
        }
        i += 1;
    }
    proof {
        assert(r@ + escaped_data_from(value@, value@.len() as int) =~= r@);
    }
    r
}

/// Escapes a string for a property position (such as the file path) of a
/// CI annotation line.
pub fn escape_property(value: &Vec<char>) -> (r: Vec<char>)
    ensures
        r@ == escaped_prop(value@),
{
    let mut r: Vec<char> = Vec::new();
    let mut i: usize = 0;
    while i < value.len()
        invariant
            i <= value.len(),
            r@ + escaped_prop_from(value@, i as int) == escaped_prop(value@),
        decreases value.len() - i,
    {
        let ghost r0 = r@;
        let c = value[i];
        if c == '\r' {
            r.push('%');
            r.push('0');
            r.push('D');
        } else if c == '\n' {
            r.push('%');
            r.push('0');
            r.push('A');
        } else if c == ':' {
            r.push('%');
            r.push('3');
            r.push('A');
        } else if c == ',' {
            r.push('%');
            r.push('2');
            r.push('C');
        } else if c == '%' {
            r.push('%');
            r.push('2');
            r.push('5');
        } else {
            r.push(c);
        }
        proof {
            assert(r@ =~= r0 + esc_prop_char(value@[i as int]));
            assert(r@ + escaped_prop_from(value@, i + 1) =~= r0 + escaped_prop_from(
                value@,
                i as int,
            ));
        }
        i += 1;
    }
    proof {
        assert(r@ + escaped_prop_from(value@, value@.len() as int) =~= r@);
    }
    r
}

} // verus!
