use vstd::prelude::*;

verus! {

/// ASCII decimal digits of `n`, most significant first.
pub open spec fn decimal(n: nat) -> Seq<u8>
    decreases n,
{
    if n < 10 {
        seq![(48 + n) as u8]
    } else {
        decimal(n / 10).push((48 + n % 10) as u8)
    }
}

/// Row `i` of the pack numbered `counter` under the test strategy: `counter:i`.
pub open spec fn generated_row(counter: nat, i: nat) -> Seq<u8> {
    decimal(counter) + seq![58u8] + decimal(i)
}

fn push_decimal(out: &mut Vec<u8>, n: u64)
    ensures
        final(out)@ == old(out)@ + decimal(n as nat),
    decreases n,
{
    if n < 10 {
        out.push((48 + n) as u8);
        assert(out@ =~= old(out)@ + decimal(n as nat));
    } else {
        push_decimal(out, n / 10);
        out.push((48 + n % 10) as u8);
        assert(out@ =~= old(out)@ + decimal(n as nat));
    }
}

/// The rows of the pack numbered `counter` under the test strategy: `counter:0`
/// up to `counter:counter`, in order.
pub fn generated_rows(counter: u64) -> (r: Vec<Vec<u8>>)
    requires
        counter < u64::MAX,
    ensures
        r@.len() == counter + 1,
        forall|i: int| 0 <= i < r@.len() ==> (#[trigger] r@[i])@ == generated_row(counter as nat, i as nat),
{
    let mut rows: Vec<Vec<u8>> = Vec::new();
    let mut i: u64 = 0;
    while i <= counter
        invariant
            counter < u64::MAX,
            i <= counter + 1,
            rows@.len() == i,
            forall|j: int| 0 <= j < rows@.len() ==> (#[trigger] rows@[j])@ == generated_row(counter as nat, j as nat),
        decreases counter + 1 - i,
    {
        let mut row: Vec<u8> = Vec::new();
        push_decimal(&mut row, counter);
        row.push(58u8);
        push_decimal(&mut row, i);
        assert(row@ =~= generated_row(counter as nat, i as nat));
        rows.push(row);
        i = i + 1;
    }
    rows
}

} // verus!
