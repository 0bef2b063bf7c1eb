use vstd::prelude::*;

verus! {

/// A placeholder block of data served to the front end.
#[derive(Clone, Copy, Debug)]
pub struct FakeBlck {
    fake_blck_thing: &'static str,
}

/// The placeholder blocks, by position.
pub struct FakeBlckRepo {
    blcks: Vec<FakeBlck>,
}

impl View for FakeBlck {
    type V = Seq<char>;

    closed spec fn view(&self) -> Seq<char> {
        self.fake_blck_thing@
    }
}

impl View for FakeBlckRepo {
    type V = Seq<FakeBlck>;

    closed spec fn view(&self) -> Seq<FakeBlck> {
        self.blcks@
    }
}

/// The decimal digits of `n`, most significant first.
pub open spec fn digits(n: nat) -> Seq<char>
    decreases n,
{
    if n < 10 {
        seq![(48 + n) as char]
    } else {
        digits(n / 10).push((48 + n % 10) as char)
    }
}

/// `i` written in decimal, with a leading `-` when it is negative.
pub open spec fn decimal(i: int) -> Seq<char> {
    if i < 0 {
        seq!['-'] + digits((-i) as nat)
    } else {
        digits(i as nat)
    }
}

/// The text of the error `get_blck_fake` gives for position `i`.
pub open spec fn failure_text(i: i32) -> Seq<char> {
    "Failure to retrieve blck at index "@ + decimal(i as int)
}

/// `i.to_string()` from std: the `Display` form of an integer, which std
/// documents as its decimal digits with a leading `-` when negative.
#[verifier::external_body]
fn i32_to_string(i: i32) -> (r: String)
    ensures
        r@ == decimal(i as int),
{
    i.to_string()
}

impl FakeBlck {
    /// The block's text.
    pub fn thing(&self) -> (r: &'static str)
        ensures
            r@ == self@,
    {
        self.fake_blck_thing
    }
}

impl FakeBlckRepo {
    /// The block at position `i`, or an error when no block is there.
    pub fn get(&self, i: i32) -> (r: Result<FakeBlck, ()>)
        ensures
            r is Ok <==> 0 <= i < self@.len(),
            r is Ok ==> r->Ok_0 == self@[i as int],
    {
        if i < 0 {
            return Err(());
        }
        let i: usize = i as usize;
        if i < self.blcks.len() {
            Ok(self.blcks[i])
        } else {
            Err(())
        }
    }
}

/// The two placeholder blocks the application starts with.
pub fn init_state() -> (r: FakeBlckRepo)
    ensures
        r@.len() == 2,
        r@[0]@ == "wow blck is fake?"@,
        r@[1]@ == "wow blck is NOT fake?"@,
{
    let blcks = vec![
        FakeBlck { fake_blck_thing: "wow blck is fake?" },
        FakeBlck { fake_blck_thing: "wow blck is NOT fake?" },
    ];
    FakeBlckRepo { blcks }
}

/// The position the next announcement names: the two placeholder blocks
/// take turns.
pub fn next_blck_index(i: usize) -> (r: usize)
    requires
        i < usize::MAX,
    ensures
        r == (i + 1) % 2,
{
    (i + 1) % 2
}

/// The block at position `i` for the front end, or the text of the failure.
pub fn get_blck_fake(i: i32, fakeblck_repo: &FakeBlckRepo) -> (r: Result<FakeBlck, String>)
    ensures
        r is Ok <==> 0 <= i < fakeblck_repo@.len(),
        r is Ok ==> r->Ok_0 == fakeblck_repo@[i as int],
        r is Err ==> r->Err_0@ == failure_text(i),
{
    let blck = fakeblck_repo.get(i);
    match blck {
        Err(_) => {
            let mut msg = String::from_str("Failure to retrieve blck at index ");
            let num = i32_to_string(i);
            msg.append(num.as_str());
            Err(msg)
        },
        Ok(blck) => Ok(blck),
    }
}

} // verus!
