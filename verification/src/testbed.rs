//! The behaviour of the testbed service that conformance and fuzz runs call:
//! what each method answers for its arguments. Streams are taken and given as
//! vectors; the session around them is the caller's.

use crate::text::to_lowercase;
use vstd::prelude::*;

verus! {

/// Why a division was refused.
#[derive(Clone, Copy, Debug, PartialEq, Eq, Structural)]
pub enum MathError {
    DivisionByZero,
    Overflow,
}

/// Why a lookup found no person.
#[derive(Clone, Copy, Debug, PartialEq, Eq, Structural)]
pub enum LookupError {
    NotFound,
    AccessDenied,
}

/// A person record.
#[derive(Debug)]
pub struct Person {
    pub name: String,
    pub age: u8,
    pub email: Option<String>,
}

/// A point.
#[derive(Clone, Copy, Debug, PartialEq, Eq, Structural)]
pub struct Point {
    pub x: i32,
    pub y: i32,
}

/// A point with a label and a flag.
#[derive(Debug)]
pub struct TaggedPoint {
    pub label: String,
    pub x: i32,
    pub y: i32,
    pub active: bool,
}

/// A color.
#[derive(Clone, Copy, Debug, PartialEq, Eq, Structural)]
pub enum Color {
    Red,
    Green,
    Blue,
}

/// A message of one of three kinds.
#[derive(Debug)]
pub enum Message {
    Text(String),
    Number(i64),
    Data(Vec<u8>),
}

/// The testbed service; it holds no state.
#[derive(Clone, Copy, Debug, PartialEq, Eq, Structural)]
pub struct TestbedService {}

/// The integer quotient rounded toward zero, as Rust's `/` computes it.
pub open spec fn quotient(a: int, b: int) -> int
    recommends
        b != 0,
{
    if (a >= 0) == (b > 0) {
        if a >= 0 {
            a / b
        } else {
            (-a) / (-b)
        }
    } else {
        if a >= 0 {
            -(a / (-b))
        } else {
            -((-a) / b)
        }
    }
}

/// A quotient of 64-bit integers is one again, but for the least one
/// divided by minus one.
pub proof fn lemma_quotient_range(a: int, b: int)
    requires
        i64::MIN <= a <= i64::MAX,
        b != 0,
        i64::MIN <= b <= i64::MAX,
    ensures
        !(a == i64::MIN && b == -1) <==> i64::MIN <= quotient(a, b) <= i64::MAX,
{
    if a >= 0 && b > 0 {
        assert(0 <= a / b <= a) by (nonlinear_arith)
            requires
                a >= 0,
                b > 0,
        ;
    } else if a < 0 && b < 0 {
        let x = -a;
        let d = -b;
        assert(0 <= x / d <= x) by (nonlinear_arith)
            requires
                x > 0,
                d > 0,
        ;
        if d >= 2 {
            assert(x / d <= x / 2) by (nonlinear_arith)
                requires
                    x > 0,
                    d >= 2,
            ;
        } else {
            assert(d == 1);
            assert(x / d == x) by (nonlinear_arith)
                requires
                    d == 1,
            ;
        }
    } else if a >= 0 {
        let d = -b;
        assert(0 <= a / d <= a) by (nonlinear_arith)
            requires
                a >= 0,
                d > 0,
        ;
    } else {
        let x = -a;
        assert(0 <= x / b <= x) by (nonlinear_arith)
            requires
                x > 0,
                b > 0,
        ;
    }
}

/// The person a lookup of `id` finds: ids 1 to 3 are known people, ids 100
/// to 199 are denied, anything else is not found.
pub open spec fn lookup_outcome(id: u32) -> Result<(Seq<char>, u8, Option<Seq<char>>), LookupError> {
    if id == 1 {
        Ok(("Alice"@, 30u8, Some("alice@example.com"@)))
    } else if id == 2 {
        Ok(("Bob"@, 25u8, None))
    } else if id == 3 {
        Ok(("Charlie"@, 35u8, Some("charlie@example.com"@)))
    } else if 100 <= id <= 199 {
        Err(LookupError::AccessDenied)
    } else {
        Err(LookupError::NotFound)
    }
}

/// The view of a person.
pub open spec fn person_view(p: Person) -> (Seq<char>, u8, Option<Seq<char>>) {
    (
        p.name@,
        p.age,
        match p.email {
            Some(e) => Some(e@),
            None => None,
        },
    )
}

/// The sum of the values, widened.
pub open spec fn total(v: Seq<i32>) -> int
    decreases v.len(),
{
    if v.len() == 0 {
        0
    } else {
        total(v.drop_last()) + v.last()
    }
}

/// The totals of at most `n` values of 32 bits fit in 64 bits.
pub proof fn lemma_total_bounds(v: Seq<i32>)
    ensures
        -0x8000_0000 * v.len() <= total(v) <= 0x7fff_ffff * v.len(),
    decreases v.len(),
{
    if v.len() > 0 {
        lemma_total_bounds(v.drop_last());
    }
}

/// A color's lowercase name.
pub open spec fn color_name(c: Color) -> Seq<char> {
    match c {
        Color::Red => "red"@,
        Color::Green => "green"@,
        Color::Blue => "blue"@,
    }
}

impl TestbedService {
    /// The service.
    pub fn new() -> (s: Self)
        ensures
            s == (TestbedService {}),
    {
        TestbedService {}
    }

    /// Answers with the message unchanged.
    pub fn echo(&self, message: String) -> (r: String)
        ensures
            r@ == message@,
    {
        message
    }

    /// Answers with the message's characters in reverse order.
    pub fn reverse(&self, message: &str) -> (r: String)
        ensures
            r@ == message@.reverse(),
    {
        let n = message.unicode_len();
        let mut r = String::new();
        let mut i: usize = 0;
        while i < n
            invariant
                n == message@.len(),
                i <= n,
                r@ == message@.reverse().take(i as int),
            decreases n - i,
        {
            crate::text::push_char(&mut r, message.get_char(n - 1 - i));
            assert(r@ =~= message@.reverse().take(i + 1));
            i += 1;
        }
        assert(message@.reverse().take(n as int) =~= message@.reverse());
        r
    }

    /// Divides, refusing a zero divisor and the one overflowing quotient.
    pub fn divide(&self, dividend: i64, divisor: i64) -> (r: Result<i64, MathError>)
        ensures
            divisor == 0 ==> r == Err::<i64, MathError>(MathError::DivisionByZero),
            divisor != 0 && dividend == i64::MIN && divisor == -1 ==> r == Err::<i64, MathError>(
                MathError::Overflow,
            ),
            divisor != 0 && !(dividend == i64::MIN && divisor == -1) ==> (r matches Ok(q) && q == quotient(
                dividend as int,
                divisor as int,
            )),
    {
        if divisor == 0 {
            Err(MathError::DivisionByZero)
        } else {
            proof {
                lemma_quotient_range(dividend as int, divisor as int);
            }
            match dividend.checked_div(divisor) {
                Some(q) => Ok(q),
                None => Err(MathError::Overflow),
            }
        }
    }

    /// Looks a person up by id (see [`lookup_outcome`]).
    pub fn lookup(&self, id: u32) -> (r: Result<Person, LookupError>)
        ensures
            match (r, lookup_outcome(id)) {
                (Ok(p), Ok(v)) => person_view(p) == v,
                (Err(e), Err(f)) => e == f,
                _ => false,
            },
    {
        if id == 1 {
            Ok(Person {
                name: String::from_str("Alice"),
                age: 30,
                email: Some(String::from_str("alice@example.com")),
            })
        } else if id == 2 {
            Ok(Person { name: String::from_str("Bob"), age: 25, email: None })
        } else if id == 3 {
            Ok(Person {
                name: String::from_str("Charlie"),
                age: 35,
                email: Some(String::from_str("charlie@example.com")),
            })
        } else if 100 <= id && id <= 199 {
            Err(LookupError::AccessDenied)
        } else {
            Err(LookupError::NotFound)
        }
    }

    /// Adds up the values a stream carried.
    pub fn sum(&self, numbers: &[i32]) -> (r: i64)
        requires
            numbers@.len() <= 0xffff_ffff,
        ensures
            r == total(numbers@),
    {
        let mut t: i64 = 0;
        let mut i: usize = 0;
        while i < numbers.len()
            invariant
                i <= numbers.len(),
                numbers@.len() <= 0xffff_ffff,
                t == total(numbers@.take(i as int)),
            decreases numbers.len() - i,
        {
            proof {
                lemma_total_bounds(numbers@.take(i as int));
                assert(numbers@.take(i + 1).drop_last() =~= numbers@.take(i as int));
            }
            t = t + numbers[i] as i64;
            i += 1;
        }
        assert(numbers@.take(i as int) =~= numbers@);
        t
    }

    /// The values a generate stream carries: `0` up to `count - 1`, where
    /// `count` read as a 32-bit signed integer is positive; none otherwise.
    pub fn generate(&self, count: u32) -> (r: Vec<i32>)
        ensures
            r@.len() == (if count < 0x8000_0000 { count as int } else { 0 }),
            forall|i: int| 0 <= i < r@.len() ==> #[trigger] r@[i] == i,
    {
        let mut r: Vec<i32> = Vec::new();
        if count >= 0x8000_0000 {
            return r;
        }
        let mut i: u32 = 0;
        while i < count
            invariant
                i <= count,
                count < 0x8000_0000,
                r@.len() == i,
                forall|j: int| 0 <= j < i ==> #[trigger] r@[j] == j,
            decreases count - i,
        {
            r.push(i as i32);
            i += 1;
        }
        r
    }

    /// Answers a text with `processed: ` before it, a number doubled, and
    /// data reversed.
    pub fn process_message(&self, msg: Message) -> (r: Message)
        requires
            msg matches Message::Number(n) ==> i64::MIN <= 2 * n <= i64::MAX,
        ensures
            match msg {
                Message::Text(s) => r matches Message::Text(t) && t@ == "processed: "@ + s@,
                Message::Number(n) => r matches Message::Number(m) && m == 2 * n,
                Message::Data(d) => r matches Message::Data(e) && e@ == d@.reverse(),
            },
    {
        match msg {
            Message::Text(s) => Message::Text(String::from_str("processed: ").concat(s.as_str())),
            Message::Number(n) => Message::Number(n * 2),
            Message::Data(d) => {
                let n = d.len();
                let mut e: Vec<u8> = Vec::new();
                let mut i: usize = 0;
                while i < n
                    invariant
                        n == d@.len(),
                        i <= n,
                        e@ == d@.reverse().take(i as int),
                    decreases n - i,
                {
                    e.push(d[n - 1 - i]);
                    assert(e@ =~= d@.reverse().take(i + 1));
                    i += 1;
                }
                assert(d@.reverse().take(n as int) =~= d@.reverse());
                Message::Data(e)
            },
        }
    }

    /// The points `(i, 2i)` for `i` below `count`, where `count` read as a
    /// 32-bit signed integer is positive; none otherwise. (A count over
    /// 2^30 but below 2^31 would overflow `2i`.)
    pub fn get_points(&self, count: u32) -> (r: Vec<Point>)
        requires
            count <= 0x4000_0000 || count >= 0x8000_0000,
        ensures
            r@.len() == (if count < 0x8000_0000 { count as int } else { 0 }),
            forall|i: int| 0 <= i < r@.len() ==> #[trigger] r@[i] == (Point { x: i as i32, y: (2 * i) as i32 }),
    {
        let mut r: Vec<Point> = Vec::new();
        if count >= 0x8000_0000 {
            return r;
        }
        let mut i: u32 = 0;
        while i < count
            invariant
                i <= count,
                count <= 0x4000_0000,
                r@.len() == i,
                forall|j: int| 0 <= j < i ==> #[trigger] r@[j] == (Point { x: j as i32, y: (2 * j) as i32 }),
            decreases count - i,
        {
            r.push(Point { x: i as i32, y: (2 * i) as i32 });
            i += 1;
        }
        r
    }

    /// Answers with the pair's halves exchanged.
    pub fn swap_pair(&self, pair: (i32, String)) -> (r: (String, i32))
        ensures
            r.0@ == pair.1@,
            r.1 == pair.0,
    {
        (pair.1, pair.0)
    }

    /// Answers with the point unchanged.
    pub fn echo_point(&self, point: Point) -> (r: Point)
        ensures
            r == point,
    {
        point
    }

    /// A person from its fields.
    pub fn create_person(&self, name: String, age: u8, email: Option<String>) -> (r: Person)
        ensures
            r.name@ == name@,
            r.age == age,
            r.email == email,
    {
        Person { name, age, email }
    }

    /// A tagged point from its fields.
    pub fn describe_point(&self, label: String, x: i32, y: i32, active: bool) -> (r: TaggedPoint)
        ensures
            r.label@ == label@,
            r.x == x && r.y == y && r.active == active,
    {
        TaggedPoint { label, x, y, active }
    }

    /// All colors, in order.
    pub fn all_colors(&self) -> (r: Vec<Color>)
        ensures
            r@ == seq![Color::Red, Color::Green, Color::Blue],
    {
        let mut r = Vec::new();
        r.push(Color::Red);
        r.push(Color::Green);
        r.push(Color::Blue);
        r
    }

    /// The color whose name the given name is, in any case.
    pub fn parse_color(&self, name: &str) -> (r: Option<Color>)
        ensures
            match r {
                Some(c) => crate::text::lowercase_text(name@) == color_name(c),
                None => forall|c: Color| crate::text::lowercase_text(name@) != color_name(c),
            },
    {
        let lower = to_lowercase(name);
        proof {
            reveal_strlit("red");
            reveal_strlit("green");
            reveal_strlit("blue");
        }
        if lower == String::from_str("red") {
            Some(Color::Red)
        } else if lower == String::from_str("green") {
            Some(Color::Green)
        } else if lower == String::from_str("blue") {
            Some(Color::Blue)
        } else {
            proof {
                assert forall|c: Color| crate::text::lowercase_text(name@) != color_name(c) by {
                    match c {
                        Color::Red => {},
                        Color::Green => {},
                        Color::Blue => {},
                    }
                }
            }
            None
        }
    }
}

/// The quotient rounds toward zero: what is left of the dividend after
/// taking the quotient times the divisor is smaller than the divisor, and
/// is zero or has the dividend's sign.
pub proof fn law_quotient_rounds_toward_zero(a: int, b: int)
    requires
        b != 0,
    ensures
        ({
            let q = quotient(a, b);
            let r = a - q * b;
            &&& (if r >= 0 { r } else { -r }) < (if b >= 0 { b } else { -b })
            &&& (r == 0 || (r > 0) == (a > 0))
        }),
{
    let q = quotient(a, b);
    if a >= 0 && b > 0 {
        assert(a - (a / b) * b >= 0 && a - (a / b) * b < b) by (nonlinear_arith)
            requires
                a >= 0,
                b > 0,
        ;
    } else if a < 0 && b < 0 {
        let x = -a;
        let d = -b;
        assert(x - (x / d) * d >= 0 && x - (x / d) * d < d) by (nonlinear_arith)
            requires
                x > 0,
                d > 0,
        ;
        assert(a - q * b == -(x - (x / d) * d)) by (nonlinear_arith)
            requires
                q == x / d,
                x == -a,
                d == -b,
        ;
    } else if a >= 0 {
        let d = -b;
        assert(a - (a / d) * d >= 0 && a - (a / d) * d < d) by (nonlinear_arith)
            requires
                a >= 0,
                d > 0,
        ;
        assert(a - q * b == a - (a / d) * d) by (nonlinear_arith)
            requires
                q == -(a / d),
                d == -b,
        ;
    } else {
        let x = -a;
        assert(x - (x / b) * b >= 0 && x - (x / b) * b < b) by (nonlinear_arith)
            requires
                x > 0,
                b > 0,
        ;
        assert(a - q * b == -(x - (x / b) * b)) by (nonlinear_arith)
            requires
                q == -(x / b),
                x == -a,
        ;
    }
}

/// Each color is named by its own lowercase English name, and no two
/// colors share one.
pub proof fn law_color_names()
    ensures
        color_name(Color::Red) == "red"@,
        color_name(Color::Green) == "green"@,
        color_name(Color::Blue) == "blue"@,
        forall|c: Color, d: Color| color_name(c) == color_name(d) ==> c == d,
{
    reveal_strlit("red");
    reveal_strlit("green");
    reveal_strlit("blue");
    assert forall|c: Color, d: Color| color_name(c) == color_name(d) implies c == d by {
        assert("red"@.len() != "green"@.len() && "red"@.len() != "blue"@.len() && "green"@.len() != "blue"@.len());
    }
}

} // verus!
