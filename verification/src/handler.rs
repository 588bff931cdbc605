//! The line protocol that the servers speak: a request is one line of text,
//! the reply is one line of text, and a counter and a set of uploads are the
//! state in between.
use crate::text::{
    after_first_space, append, append_decimal, chars_of, decimal, find_space, is_text,
    parse_u64, parsed_u64, starts_with, string_of, trim_end, trimmed,
};
use rand::RngCore;
use vstd::prelude::*;

verus! {

/// A request, as contracts see it.
pub enum Request {
    Fortune,
    Increment,
    Counter,
    Upload(Seq<char>),
    Download(Seq<char>),
    Compute(u64),
    Noop,
}

/// A request.
#[derive(Debug, PartialEq, Eq)]
pub enum Command {
    /// Asks for one of the fortunes.
    Fortune,
    /// Adds one to the counter.
    Increment,
    /// Asks for the counter.
    Counter,
    /// Stores an item.
    Upload(String),
    /// Asks whether an item is stored.
    Download(String),
    /// Asks for the sum of the primes up to a bound.
    Compute(u64),
    /// Anything else.
    Noop,
}

impl View for Command {
    type V = Request;

    open spec fn view(&self) -> Request {
        match self {
            Command::Fortune => Request::Fortune,
            Command::Increment => Request::Increment,
            Command::Counter => Request::Counter,
            Command::Upload(item) => Request::Upload(item@),
            Command::Download(item) => Request::Download(item@),
            Command::Compute(bound) => Request::Compute(*bound),
            Command::Noop => Request::Noop,
        }
    }
}

/// The request that a line denotes.  The three plain requests are matched
/// whole.  The others are recognised by how the line begins and take as
/// their argument all that follows the line's first space; without a space
/// they are not requests.  A bound that is no number counts as zero.
pub open spec fn request(line: Seq<char>) -> Request {
    if line == "fortune"@ {
        Request::Fortune
    } else if line == "increment"@ {
        Request::Increment
    } else if line == "counter"@ {
        Request::Counter
    } else if "upload"@.is_prefix_of(line) && after_first_space(line) is Some {
        Request::Upload(after_first_space(line)->0)
    } else if "download"@.is_prefix_of(line) && after_first_space(line) is Some {
        Request::Download(after_first_space(line)->0)
    } else if "compute"@.is_prefix_of(line) && after_first_space(line) is Some {
        Request::Compute(
            match parsed_u64(after_first_space(line)->0) {
                Some(bound) => bound,
                None => 0,
            },
        )
    } else {
        Request::Noop
    }
}

/// What the protocol calls a prime: a number from 2 on that no number from 2
/// up to, but not including, its half divides.  (So 4 counts.)
pub open spec fn prime(x: nat) -> bool {
    x >= 2 && forall|i: int| 2 <= i < x / 2 ==> #[trigger] (x as int % i) != 0
}

/// The sum of the primes, in that sense, from 0 to `bound`.
pub open spec fn prime_sum(bound: nat) -> nat
    decreases bound,
{
    let below = if bound == 0 {
        0
    } else {
        prime_sum((bound - 1) as nat)
    };
    if prime(bound) {
        below + bound
    } else {
        below
    }
}

/// The fortune with the given number; there are four.
pub open spec fn fortune(index: int) -> Seq<char> {
    if index == 0 {
        "What we see is mainly what we look for.\n"@
    } else if index == 1 {
        "Silence is a source of great strength.\n"@
    } else if index == 2 {
        "Logic will get you from A to B. Imagination will take you everywhere.\n"@
    } else {
        "Doing your best means never stop trying.\n"@
    }
}

/// The counter after a request: an increment adds one, wrapping round at the
/// end of the range; any other request leaves it.
pub open spec fn counted(request: Request, counter: u64) -> u64 {
    if request is Increment {
        if counter == u64::MAX {
            0
        } else {
            (counter + 1) as u64
        }
    } else {
        counter
    }
}

/// The uploads after a request: an upload adds its item; any other request
/// leaves them.
pub open spec fn uploaded(request: Request, uploads: Set<Seq<char>>) -> Set<Seq<char>> {
    match request {
        Request::Upload(item) => uploads.insert(item),
        _ => uploads,
    }
}

/// The reply to a request, given the number drawn for a fortune and the
/// state before the request.
pub open spec fn reply(request: Request, chance: u32, counter: u64, uploads: Set<Seq<char>>) -> Seq<
    char,
> {
    match request {
        Request::Fortune => fortune(chance as int % 4),
        Request::Increment => "incremented\n"@,
        Request::Counter => "counter: "@ + decimal(counter as nat) + "\n"@,
        Request::Upload(_) => "uploaded\n"@,
        Request::Download(item) => "download: "@ + (if uploads.contains(item) {
            item
        } else {
            "not found"@
        }) + "\n"@,
        Request::Compute(bound) => "computed: "@ + decimal(
            prime_sum(bound as nat) % 0x1_0000_0000_0000_0000,
        ) + "\n"@,
        Request::Noop => "ok\n"@,
    }
}

impl Command {
    /// Reads a request from a line.
    pub fn parse(str: &str) -> (command: Command)
        ensures
            command@ == request(str@),
    {
        let chars = chars_of(str);
        Command::parse_chars(&chars)
    }

    /// Reads a request from the characters of a line.
    pub fn parse_chars(line: &Vec<char>) -> (command: Command)
        ensures
            command@ == request(line@),
    {
        let n = line.len();
        assert(line@.subrange(0, n as int) =~= line@);
        if is_text(line, n, "fortune") {
            return Command::Fortune;
        }
        if is_text(line, n, "increment") {
            return Command::Increment;
        }
        if is_text(line, n, "counter") {
            return Command::Counter;
        }
        let space = find_space(line);
        if space < n {
            if starts_with(line, n, "upload") {
                return Command::Upload(string_of(line, space + 1, n));
            }
            if starts_with(line, n, "download") {
                return Command::Download(string_of(line, space + 1, n));
            }
            if starts_with(line, n, "compute") {
                return Command::Compute(
                    match parse_u64(line, space + 1) {
                        Some(bound) => bound,
                        None => 0,
                    },
                );
            }
        }
        Command::Noop
    }
}

/// Whether `x` is a prime in the protocol's sense.
pub fn is_prime(x: u64) -> (is: bool)
    ensures
        is == prime(x as nat),
{
    if x == 0 || x == 1 {
        return false;
    }
    let half = x / 2;
    let mut i: u64 = 2;
    while i < half
        invariant
            x >= 2,
            half == x / 2,
            2 <= i,
            forall|j: int| 2 <= j < i ==> #[trigger] (x as int % j) != 0,
        decreases half - i,
    {
        if x % i == 0 {
            assert(x as int % (i as int) == 0);
            return false;
        }
        i = i + 1;
    }
    true
}

/// The sum of the primes from 0 to `bound`, wrapping round at the end of the
/// range.
pub fn sum_of_primes(bound: u64) -> (sum: u64)
    ensures
        sum == prime_sum(bound as nat) % 0x1_0000_0000_0000_0000,
{
    let mut total: u128 = 0;
    let mut x: u64 = 0;
    assert(prime_sum(0) == 0);
    while x < bound
        invariant
            x <= bound,
            total == prime_sum(x as nat),
            total <= x * 0xffff_ffff_ffff_ffff,
        decreases bound - x,
    {
        x = x + 1;
        if is_prime(x) {
            total = total + x as u128;
        }
    }
    (total % 0x1_0000_0000_0000_0000) as u64
}

/// The text of a fortune.
pub fn fortune_text(index: usize) -> (text: &'static str)
    ensures
        text@ == fortune(index as int),
{
    if index == 0 {
        "What we see is mainly what we look for.\n"
    } else if index == 1 {
        "Silence is a source of great strength.\n"
    } else if index == 2 {
        "Logic will get you from A to B. Imagination will take you everywhere.\n"
    } else {
        "Doing your best means never stop trying.\n"
    }
}

/// The items that clients have uploaded.
pub struct Uploads {
    items: Vec<String>,
}

impl Uploads {
    /// The set of the uploaded items.
    pub closed spec fn view(&self) -> Set<Seq<char>> {
        Set::new(|item: Seq<char>| exists|i: int| 0 <= i < self.items@.len() && self.items@[i]@ == item)
    }

    /// No uploads.
    pub fn new() -> (uploads: Self)
        ensures
            uploads@ == Set::<Seq<char>>::empty(),
    {
        let uploads = Uploads { items: Vec::new() };
        assert(uploads@ =~= Set::<Seq<char>>::empty());
        uploads
    }

    /// Whether `item` has been uploaded.
    pub fn contains(&self, item: &String) -> (found: bool)
        ensures
            found == self@.contains(item@),
    {
        let mut i: usize = 0;
        while i < self.items.len()
            invariant
                i <= self.items@.len(),
                forall|j: int| 0 <= j < i ==> self.items@[j]@ != item@,
            decreases self.items@.len() - i,
        {
            if self.items[i] == *item {
                return true;
            }
            i = i + 1;
        }
        false
    }

    /// Adds `item` to the uploads.  Returns whether it was new.
    pub fn insert(&mut self, item: String) -> (new: bool)
        ensures
            final(self)@ == old(self)@.insert(item@),
            new == !old(self)@.contains(item@),
    {
        if self.contains(&item) {
            assert(self@ =~= self@.insert(item@));
            false
        } else {
            let ghost before = self.items@;
            self.items.push(item);
            assert(self.items@[before.len() as int]@ == item@);
            assert forall|other: Seq<char>| self@.contains(other) <==> old(self)@.insert(
                item@,
            ).contains(other) by {
                if old(self)@.contains(other) {
                    let i = choose|i: int| 0 <= i < before.len() && before[i]@ == other;
                    assert(self.items@[i]@ == other);
                }
            }
            assert(self@ =~= old(self)@.insert(item@));
            true
        }
    }
}

/// Draws a number from `rand`'s generator of the current thread
/// (`thread_rng().next_u32()`).  Nothing is claimed of the number.  The
/// generator is seeded from the operating system when a thread first uses
/// it, and `rand` gives up if that fails.
#[verifier::external_body]
fn draw() -> u32 {
    rand::thread_rng().next_u32()
}

/// Replies to `command`, where `chance` is the number drawn to pick a
/// fortune.
pub fn respond(command: Command, chance: u32, counter: &mut u64, uploads: &mut Uploads) -> (out:
    String)
    ensures
        out@ == reply(command@, chance, *old(counter), old(uploads)@),
        *final(counter) == counted(command@, *old(counter)),
        final(uploads)@ == uploaded(command@, old(uploads)@),
{
    let mut text: Vec<char> = Vec::new();
    match command {
        Command::Fortune => {
            append(&mut text, fortune_text(chance as usize % 4));
        },
        Command::Increment => {
            *counter = if *counter == u64::MAX {
                0
            } else {
                *counter + 1
            };
            append(&mut text, "incremented\n");
        },
        Command::Counter => {
            append(&mut text, "counter: ");
            append_decimal(&mut text, *counter);
            append(&mut text, "\n");
        },
        Command::Upload(item) => {
            uploads.insert(item);
            append(&mut text, "uploaded\n");
        },
        Command::Download(item) => {
            append(&mut text, "download: ");
            if uploads.contains(&item) {
                append(&mut text, item.as_str());
            } else {
                append(&mut text, "not found");
            }
            append(&mut text, "\n");
        },
        Command::Compute(bound) => {
            let sum = sum_of_primes(bound);
            append(&mut text, "computed: ");
            append_decimal(&mut text, sum);
            append(&mut text, "\n");
        },
        Command::Noop => {
            append(&mut text, "ok\n");
        },
    }
    let n = text.len();
    let out = string_of(&text, 0, n);
    assert(text@.subrange(0, n as int) =~= text@);
    assert(out@ =~= reply(command@, chance, *old(counter), old(uploads)@));
    out
}

/// Serves one message: the message without the white space at its end is
/// read as a request and answered.  A fortune is picked by a number drawn
/// at random.
pub fn handle(message: String, counter: &mut u64, uploads: &mut Uploads) -> (out: String)
    ensures
        exists|chance: u32|
            out@ == #[trigger] reply(
                request(trimmed(message@)),
                chance,
                *old(counter),
                old(uploads)@,
            ),
        *final(counter) == counted(request(trimmed(message@)), *old(counter)),
        final(uploads)@ == uploaded(request(trimmed(message@)), old(uploads)@),
{
    let mut line = chars_of(message.as_str());
    let end = trim_end(&line);
    line.truncate(end);
    let command = Command::parse_chars(&line);
    let chance = match command {
        Command::Fortune => draw(),
        _ => 0,
    };
    respond(command, chance, counter, uploads)
}

} // verus!
