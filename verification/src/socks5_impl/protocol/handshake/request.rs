//! The client's greeting.
//!
//! ```plain
//! +-----+----------+----------+
//! | VER | NMETHODS | METHODS  |
//! +-----+----------+----------+
//! |  1  |    1     | 0 to 255 |
//! +-----+----------+----------+
//! ```
use vstd::prelude::*;

use crate::socks5_impl::error::Error;
use crate::socks5_impl::protocol::cursor::Cursor;
use crate::socks5_impl::protocol::handshake::AuthMethod;
use crate::socks5_impl::protocol::{StreamOperation, SOCKS_VERSION};

verus! {

/// The methods that a client offers, each in normal form.
#[derive(Debug)]
pub struct Request {
    methods: Vec<AuthMethod>,
}

impl View for Request {
    type V = Seq<AuthMethod>;

    closed spec fn view(&self) -> Seq<AuthMethod> {
        self.methods@
    }
}

/// Whether each method of the list is in normal form.
pub open spec fn spec_all_normal(methods: Seq<AuthMethod>) -> bool {
    forall|i: int| 0 <= i < methods.len() ==> (#[trigger] methods[i]).spec_is_normal()
}

/// Whether `method` is among `methods`, going by the tag.
pub open spec fn spec_offers(methods: Seq<AuthMethod>, method: AuthMethod) -> bool {
    exists|i: int| 0 <= i < methods.len() && #[trigger] methods[i].spec_code() == method.spec_code()
}

/// Among methods in normal form, going by the tag is going by equality: a
/// method is offered exactly if its normal form is in the list.
pub proof fn lemma_offers_is_contains(methods: Seq<AuthMethod>, method: AuthMethod)
    requires
        spec_all_normal(methods),
    ensures
        spec_offers(methods, method) == methods.contains(method.spec_normal()),
{
    if spec_offers(methods, method) {
        let i = choose|i: int|
            0 <= i < methods.len() && #[trigger] methods[i].spec_code() == method.spec_code();
        assert(methods[i].spec_is_normal());
        assert(methods[i] == method.spec_normal());
    }
    if methods.contains(method.spec_normal()) {
        let i = choose|i: int| 0 <= i < methods.len() && methods[i] == method.spec_normal();
        assert(methods[i].spec_code() == method.spec_code());
    }
}

/// The wire form of a greeting that offers `methods`.
pub open spec fn spec_wire(methods: Seq<AuthMethod>) -> Seq<u8> {
    seq![5u8, methods.len() as u8] + AuthMethod::spec_codes(methods)
}

/// The greeting at the start of `b` and the number of bytes it occupies, or
/// why there is none.
///
/// The bytes are looked at in the order in which a reader takes them: the
/// version byte, which is judged at once; the count; the methods.
pub open spec fn spec_decode(b: Seq<u8>) -> Result<(Seq<AuthMethod>, nat), Error> {
    if b.len() < 1 {
        Err(Error::Incomplete { needed: 1 })
    } else if b[0] != 5 {
        Err(Error::UnsupportedVersion(b[0]))
    } else if b.len() < 2 {
        Err(Error::Incomplete { needed: 1 })
    } else if b.len() < 2 + b[1] {
        Err(Error::Incomplete { needed: (2 + b[1] - b.len()) as usize })
    } else {
        Ok((AuthMethod::spec_from_codes(b.subrange(2, 2 + b[1])), (2 + b[1]) as nat))
    }
}

/// How many of the bytes `b` a reader has taken when reading a greeting from
/// them has come to its end: one byte where the version is another, the
/// greeting where there is one, all bytes where they end early.
pub open spec fn spec_taken(b: Seq<u8>) -> nat {
    if b.len() < 1 {
        b.len()
    } else if b[0] != 5 {
        1
    } else if b.len() < 2 {
        b.len()
    } else if b.len() < 2 + b[1] {
        b.len()
    } else {
        (2 + b[1]) as nat
    }
}

/// Whether reading from the bytes `b` ends for want of bytes.
pub open spec fn spec_ends_early(b: Seq<u8>) -> bool {
    spec_decode(b) matches Err(Error::Incomplete { .. })
}

/// A reader that is fed piece by piece takes the same bytes as one that has
/// them all at hand.
///
/// Let reading from `b` end otherwise than for want of bytes. Then of any
/// shorter beginning than what was taken the decoder says that it is
/// incomplete, and asks for at least one byte and for no more than up to what
/// was taken; and of exactly what was taken it says what it says of all of
/// `b`.
pub proof fn lemma_read_in_steps(b: Seq<u8>, k: int)
    requires
        !spec_ends_early(b),
        0 <= k < spec_taken(b),
    ensures
        spec_decode(b.take(k)) matches Err(Error::Incomplete { needed }) && 1 <= needed
            <= spec_taken(b) - k,
        spec_decode(b.take(spec_taken(b) as int)) == spec_decode(b),
        spec_taken(b) <= b.len(),
{
    let p = b.take(k);
    let w = b.take(spec_taken(b) as int);
    assert(w[0] == b[0]);
    if k >= 1 {
        assert(p[0] == b[0]);
    }
    if b[0] == 5 {
        assert(w[1] == b[1]);
        if k >= 2 {
            assert(p[1] == b[1]);
        }
        assert(w.subrange(2, 2 + w[1]) =~= b.subrange(2, 2 + b[1]));
    }
}

/// Reading a greeting piece by piece: of any proper beginning of its wire
/// form the decoder says that it is incomplete, and asks for at least one
/// byte and for no more than are still to come.
pub proof fn lemma_decode_beginning(methods: Seq<AuthMethod>, k: int)
    requires
        methods.len() <= 255,
        0 <= k < spec_wire(methods).len(),
    ensures
        spec_decode(spec_wire(methods).take(k)) matches Err(Error::Incomplete { needed }) && 1
            <= needed <= spec_wire(methods).len() - k,
{
    let w = spec_wire(methods);
    let b = w.take(k);
    if k >= 1 {
        assert(b[0] == 5);
    }
    if k >= 2 {
        assert(b[1] == methods.len());
    }
}

impl Request {
    #[verifier::type_invariant]
    spec fn normal(self) -> bool {
        spec_all_normal(self.methods@)
    }

    /// A greeting that offers `methods`. Each method is brought into normal
    /// form.
    pub fn new(methods: Vec<AuthMethod>) -> (r: Request)
        ensures
            r@ == AuthMethod::spec_normal_all(methods@),
            spec_all_normal(r@),
    {
        let mut normal: Vec<AuthMethod> = Vec::new();
        let mut i: usize = 0;
        while i < methods.len()
            invariant
                i <= methods@.len(),
                normal@.len() == i,
                forall|j: int| 0 <= j < i ==> normal@[j] == (#[trigger] methods@[j]).spec_normal(),
            decreases methods@.len() - i,
        {
            normal.push(methods[i].normal());
            i += 1;
        }
        assert(normal@ =~= AuthMethod::spec_normal_all(methods@));
        Request { methods: normal }
    }

    /// The offered methods, in the order of the greeting.
    pub fn methods(&self) -> (m: &Vec<AuthMethod>)
        ensures
            m@ == self@,
            spec_all_normal(m@),
    {
        proof {
            use_type_invariant(self);
        }
        &self.methods
    }

    /// Whether the client offered `server_method`: whether the normal form
    /// of that method is among the offered ones.
    pub fn evaluate_method(&self, server_method: AuthMethod) -> (b: bool)
        ensures
            b == self@.contains(server_method.spec_normal()),
            b == spec_offers(self@, server_method),
    {
        proof {
            use_type_invariant(self);
            lemma_offers_is_contains(self.methods@, server_method);
        }
        let wanted = server_method.code();
        let mut i: usize = 0;
        while i < self.methods.len()
            invariant
                i <= self.methods@.len(),
                wanted == server_method.spec_code(),
                spec_offers(self.methods@, server_method) == self.methods@.contains(
                    server_method.spec_normal(),
                ),
                forall|j: int| 0 <= j < i ==> self.methods@[j].spec_code() != wanted,
            decreases self.methods@.len() - i,
        {
            if self.methods[i].code() == wanted {
                return true;
            }
            i += 1;
        }
        false
    }

    /// Decodes the greeting at the start of `data` and says how many bytes it
    /// occupies.
    pub fn decode(data: &[u8]) -> (r: Result<(Request, usize), Error>)
        ensures
            match r {
                Ok((req, n)) => {
                    &&& spec_decode(data@) == Ok::<(Seq<AuthMethod>, nat), Error>((req@, n as nat))
                    &&& n <= data@.len()
                    &&& req@.len() <= 255
                    &&& spec_all_normal(req@)
                },
                Err(e) => spec_decode(data@) == Err::<(Seq<AuthMethod>, nat), Error>(e),
            },
            // A greeting of any other protocol version is refused for that.
            data@.len() >= 1 && data@[0] != 5 ==> r == Err::<(Request, usize), Error>(
                Error::UnsupportedVersion(data@[0]),
            ),
    {
        if data.len() < 1 {
            return Err(Error::Incomplete { needed: 1 });
        }
        if data[0] != SOCKS_VERSION {
            return Err(Error::UnsupportedVersion(data[0]));
        }
        if data.len() < 2 {
            return Err(Error::Incomplete { needed: 1 });
        }
        let mlen = data[1] as usize;
        if data.len() < 2 + mlen {
            return Err(Error::Incomplete { needed: 2 + mlen - data.len() });
        }
        let mut methods: Vec<AuthMethod> = Vec::new();
        let mut i: usize = 0;
        while i < mlen
            invariant
                i <= mlen <= 255,
                2 + mlen <= data@.len(),
                methods@.len() == i,
                forall|j: int| 0 <= j < i ==> methods@[j] == AuthMethod::spec_from(data@[2 + j]),
            decreases mlen - i,
        {
            methods.push(AuthMethod::from(data[2 + i]));
            i += 1;
        }
        assert(methods@ =~= AuthMethod::spec_from_codes(data@.subrange(2, 2 + mlen)));
        Ok((Request { methods }, 2 + mlen))
    }

    /// How many of the bytes `data` a reader has taken when reading a
    /// greeting from them has come to its end; see [`spec_taken`].
    pub fn taken(data: &[u8]) -> (n: usize)
        ensures
            n == spec_taken(data@),
            n <= data@.len(),
    {
        let len = data.len();
        if len < 1 {
            len
        } else if data[0] != SOCKS_VERSION {
            1
        } else if len < 2 {
            len
        } else if len < 2 + data[1] as usize {
            len
        } else {
            2 + data[1] as usize
        }
    }

    /// Reads one greeting from `stream`. On success the stream stands right
    /// behind the greeting. On failure it stands behind what had been read
    /// when the failure showed: behind the version byte where that is
    /// another version, at the end where the bytes ended early.
    pub fn retrieve_from_stream(stream: &mut Cursor) -> (r: Result<Request, Error>)
        ensures
            final(stream).source() == old(stream).source(),
            final(stream).consumed() == old(stream).consumed() + spec_taken(
                old(stream).remaining(),
            ),
            match r {
                Ok(req) => {
                    &&& spec_decode(old(stream).remaining()) matches Ok((m, n))
                    &&& m == req@
                    &&& final(stream).consumed() == old(stream).consumed() + n
                },
                Err(e) => spec_decode(old(stream).remaining()) == Err::<
                    (Seq<AuthMethod>, nat),
                    Error,
                >(e),
            },
    {
        let rest = stream.rest();
        let r = Request::decode(rest);
        stream.advance(Request::taken(rest));
        match r {
            Ok((req, _)) => Ok(req),
            Err(e) => Err(e),
        }
    }
}

impl Clone for Request {
    fn clone(&self) -> (r: Request)
        ensures
            r@ == self@,
    {
        proof {
            use_type_invariant(self);
        }
        let mut methods: Vec<AuthMethod> = Vec::new();
        let mut i: usize = 0;
        while i < self.methods.len()
            invariant
                i <= self.methods@.len(),
                methods@.len() == i,
                forall|j: int| 0 <= j < i ==> methods@[j] == self.methods@[j],
            decreases self.methods@.len() - i,
        {
            methods.push(self.methods[i]);
            i += 1;
        }
        assert(methods@ =~= self.methods@);
        Request { methods }
    }
}

impl StreamOperation for Request {
    open spec fn wf(&self) -> bool {
        self@.len() <= 255
    }

    open spec fn wire(&self) -> Seq<u8> {
        spec_wire(self@)
    }

    fn write_to_buf(&self, buf: &mut Vec<u8>) {
        buf.push(SOCKS_VERSION);
        buf.push(self.methods.len() as u8);
        let mut i: usize = 0;
        while i < self.methods.len()
            invariant
                i <= self.methods@.len(),
                self.methods@.len() <= 255,
                buf@ == old(buf)@ + seq![5u8, self.methods@.len() as u8] + AuthMethod::spec_codes(
                    self.methods@,
                ).take(i as int),
            decreases self.methods@.len() - i,
        {
            buf.push(self.methods[i].code());
            proof {
                let codes = AuthMethod::spec_codes(self.methods@);
                assert(codes.take(i + 1) =~= codes.take(i as int).push(codes[i as int]));
            }
            i += 1;
        }
        proof {
            let codes = AuthMethod::spec_codes(self.methods@);
            assert(codes.take(codes.len() as int) =~= codes);
            assert(buf@ =~= old(buf)@ + self.wire());
        }
    }

    fn len(&self) -> (n: usize) {
        2 + self.methods.len()
    }
}

} // verus!
