use std::collections::VecDeque;

use openssl_lite::driver::{Interest, Reply, Request};
use openssl_lite::error::QueueEntry;
use openssl_lite::sys::Call;
use openssl_lite::{AsyncSsl, ErrorStack, IoError, Ssl, SslCtx, SslError};

/// A foreign layer that follows a script and counts what it is asked to do.
struct Fake {
    next_addr: usize,
    live: Vec<usize>,
    allocs: usize,
    frees: usize,
    calls: Vec<(usize, Call)>,
    waits: Vec<Interest>,
    /// Results of the handshake primitives, with the code that classifies each.
    handshakes: VecDeque<(i64, i32)>,
    /// Results of the shutdown primitive, with the code that classifies each.
    shutdowns: VecDeque<(i64, i32)>,
    /// Bytes on their way to each connection, by its address.
    inbox: Vec<(usize, Vec<u8>)>,
    /// The peer of each connection, by address.
    peers: Vec<(usize, usize)>,
    code: i32,
    queue: Vec<QueueEntry>,
    os_error: i32,
}

impl Fake {
    fn new() -> Fake {
        Fake {
            next_addr: 0x1000,
            live: vec![],
            allocs: 0,
            frees: 0,
            calls: vec![],
            waits: vec![],
            handshakes: VecDeque::new(),
            shutdowns: VecDeque::new(),
            inbox: vec![],
            peers: vec![],
            code: 0,
            queue: vec![],
            os_error: 0,
        }
    }

    fn allocate(&mut self) -> usize {
        let addr = self.next_addr;
        self.next_addr += 0x100;
        self.live.push(addr);
        self.allocs += 1;
        addr
    }

    fn free(&mut self, addr: usize) {
        let at = self.live.iter().position(|a| *a == addr).expect("free of a live object");
        self.live.remove(at);
        self.frees += 1;
    }

    fn connect(&mut self, a: usize, b: usize) {
        self.peers.push((a, b));
        self.peers.push((b, a));
        self.inbox.push((a, vec![]));
        self.inbox.push((b, vec![]));
    }

    fn peer(&self, addr: usize) -> usize {
        self.peers.iter().find(|(a, _)| *a == addr).expect("a connected object").1
    }

    fn inbox(&mut self, addr: usize) -> &mut Vec<u8> {
        &mut self.inbox.iter_mut().find(|(a, _)| *a == addr).expect("a connected object").1
    }

    fn scripted(&mut self, script: (i64, i32)) -> Reply {
        self.code = script.1;
        Reply::Returned(script.0)
    }

    fn invoke(&mut self, target: usize, call: Call, buf: &mut Vec<u8>) -> Reply {
        self.calls.push((target, call.clone()));
        match call {
            Call::CtxNew | Call::New { .. } => Reply::Handle(self.allocate()),
            Call::CtxFree | Call::Free => {
                self.free(target);
                Reply::Returned(0)
            }
            Call::Connect | Call::Accept => {
                let script = self.handshakes.pop_front().unwrap_or((1, 0));
                self.scripted(script)
            }
            Call::Shutdown => {
                let script = self.shutdowns.pop_front().unwrap_or((1, 0));
                self.scripted(script)
            }
            Call::Write { num } => {
                let peer = self.peer(target);
                let sent: Vec<u8> = buf[..num as usize].to_vec();
                self.inbox(peer).extend_from_slice(&sent);
                Reply::Returned(num as i64)
            }
            Call::Read { num } => {
                let inbox = self.inbox(target);
                let n = inbox.len().min(num as usize);
                if n == 0 {
                    self.code = 6;
                    return Reply::Returned(0);
                }
                let bytes: Vec<u8> = inbox.drain(..n).collect();
                buf[..n].copy_from_slice(&bytes);
                Reply::Returned(n as i64)
            }
            _ => Reply::Returned(1),
        }
    }

    fn answer(&mut self, request: Request, buf: &mut Vec<u8>) -> Reply {
        match request {
            Request::Invoke { target, call } => self.invoke(target, call, buf),
            Request::GetError { .. } => Reply::ErrorCode(self.code),
            Request::LastOsError => Reply::OsError(IoError::Os(self.os_error)),
            Request::DrainErrors => {
                let queue: Vec<QueueEntry> = self.queue.drain(..).collect();
                Reply::Errors(ErrorStack::get(&queue))
            }
            Request::Wait(interest) => {
                self.waits.push(interest);
                Reply::Ready
            }
            Request::Done(_) => unreachable!(),
        }
    }
}

fn run<F>(fake: &mut Fake, first: Request, buf: &mut Vec<u8>, mut resume: F) -> Result<usize, SslError>
where
    F: FnMut(Reply) -> Request,
{
    let mut request = first;
    loop {
        if let Request::Done(result) = request {
            return result;
        }
        let reply = fake.answer(request, buf);
        request = resume(reply);
    }
}

fn new_context(fake: &mut Fake) -> SslCtx {
    let (mut ctx, first) = SslCtx::new();
    assert_eq!(run(fake, first, &mut vec![], |r| ctx.resume(r)), Ok(0));
    ctx
}

fn new_connection(fake: &mut Fake, ctx: &SslCtx, fd: i32) -> Ssl {
    let (mut ssl, first) = Ssl::new(ctx);
    assert_eq!(run(fake, first, &mut vec![], |r| ssl.resume(r)), Ok(0));
    let first = ssl.set_fd(fd);
    assert_eq!(run(fake, first, &mut vec![], |r| ssl.resume(r)), Ok(0));
    ssl
}

#[test]
fn ping_is_echoed_and_nothing_leaks() {
    let mut fake = Fake::new();
    let mut client_ctx = new_context(&mut fake);
    let mut server_ctx = new_context(&mut fake);
    let mut client = new_connection(&mut fake, &client_ctx, 3);
    let mut server = new_connection(&mut fake, &server_ctx, 4);
    fake.connect(client.handle().addr, server.handle().addr);
    assert_eq!(fake.allocs, 4);

    // The handshake of the client needs the transport once, then completes.
    fake.handshakes.push_back((-1, 2));
    fake.handshakes.push_back((1, 0));
    let first = client.connect();
    assert_eq!(run(&mut fake, first, &mut vec![], |r| client.resume(r)), Ok(0));
    assert_eq!(fake.waits, vec![Interest::Readable]);
    let connects = fake.calls.iter().filter(|(_, call)| *call == Call::Connect).count();
    assert_eq!(connects, 2);

    let first = server.accept();
    assert_eq!(run(&mut fake, first, &mut vec![], |r| server.resume(r)), Ok(0));

    // The client writes, the server echoes.
    let mut out = b"ping".to_vec();
    let first = client.ssl_write(out.len());
    assert_eq!(run(&mut fake, first, &mut out, |r| client.resume(r)), Ok(4));

    let mut seen = vec![0u8; 64];
    let first = server.ssl_read(seen.len());
    let n = run(&mut fake, first, &mut seen, |r| server.resume(r)).unwrap();
    assert_eq!(n, 4);
    seen.truncate(n);
    let first = server.ssl_write(seen.len());
    assert_eq!(run(&mut fake, first, &mut seen, |r| server.resume(r)), Ok(4));

    // The client drains exactly what it sent.
    let mut back = vec![0u8; 64];
    let first = client.ssl_read(back.len());
    assert_eq!(run(&mut fake, first, &mut back, |r| client.resume(r)), Ok(4));
    assert_eq!(&back[..4], b"ping");
    let first = client.ssl_read(back.len());
    assert_eq!(run(&mut fake, first, &mut back, |r| client.resume(r)), Ok(0));

    // Both sides shut down; the client's shutdown is in progress once.
    fake.shutdowns.push_back((0, 0));
    let first = client.shutdown();
    assert_eq!(run(&mut fake, first, &mut vec![], |r| client.resume(r)), Ok(0));
    let first = server.shutdown();
    assert_eq!(run(&mut fake, first, &mut vec![], |r| server.resume(r)), Ok(0));
    assert_eq!(fake.waits.len(), 1);

    // Everything is released, each object once.
    let first = client.release();
    assert_eq!(run(&mut fake, first, &mut vec![], |r| client.resume(r)), Ok(0));
    let first = server.release();
    assert_eq!(run(&mut fake, first, &mut vec![], |r| server.resume(r)), Ok(0));
    let first = client_ctx.release();
    assert_eq!(run(&mut fake, first, &mut vec![], |r| client_ctx.resume(r)), Ok(0));
    let first = server_ctx.release();
    assert_eq!(run(&mut fake, first, &mut vec![], |r| server_ctx.resume(r)), Ok(0));
    assert_eq!(fake.allocs, 4);
    assert_eq!(fake.frees, 4);
    assert!(fake.live.is_empty());
}

#[test]
fn context_without_verification_sets_mode_none() {
    let mut fake = Fake::new();
    let mut ctx = new_context(&mut fake);
    let recorded = fake.calls.len();
    let first = ctx.set_verify(false);
    assert_eq!(run(&mut fake, first, &mut vec![], |r| ctx.resume(r)), Ok(0));
    let after: Vec<(usize, Call)> = fake.calls[recorded..].to_vec();
    assert_eq!(after, vec![(ctx.handle().addr, Call::CtxSetVerify { mode: 0 })]);
    assert!(!after.iter().any(|(_, call)| *call == Call::CtxSetVerify { mode: 1 }));
}

#[test]
fn empty_transfers_reach_no_primitive() {
    let mut fake = Fake::new();
    let ctx = new_context(&mut fake);
    let mut ssl = new_connection(&mut fake, &ctx, 3);
    let recorded = fake.calls.len();
    let first = ssl.ssl_read(0);
    assert_eq!(run(&mut fake, first, &mut vec![], |r| ssl.resume(r)), Ok(0));
    let first = ssl.ssl_write(0);
    assert_eq!(run(&mut fake, first, &mut vec![], |r| ssl.resume(r)), Ok(0));
    assert_eq!(fake.calls.len(), recorded);
}

#[test]
fn release_balances_allocation_when_shutdown_is_fatal() {
    let mut fake = Fake::new();
    let ctx = new_context(&mut fake);
    let mut ssl = new_connection(&mut fake, &ctx, 3);
    fake.shutdowns.push_back((-1, 5));
    fake.os_error = 32;
    let first = ssl.release();
    assert_eq!(run(&mut fake, first, &mut vec![], |r| ssl.resume(r)), Ok(0));
    assert_eq!(fake.allocs, 2);
    assert_eq!(fake.frees, 1);
    assert_eq!(fake.live, vec![ctx.handle().addr]);
    let frees = fake.calls.iter().filter(|(_, call)| *call == Call::Free).count();
    assert_eq!(frees, 1);
}

#[test]
fn explicit_shutdown_reports_the_fatal_error() {
    let mut fake = Fake::new();
    let ctx = new_context(&mut fake);
    let mut ssl = new_connection(&mut fake, &ctx, 3);
    fake.shutdowns.push_back((-1, 1));
    fake.queue.push(QueueEntry { code: 0x0A000126, text: b"unexpected eof while reading\0".to_vec() });
    let first = ssl.shutdown();
    assert_eq!(
        run(&mut fake, first, &mut vec![], |r| ssl.resume(r)),
        Err(SslError::Ssl(ErrorStack(vec!["unexpected eof while reading".to_string()])))
    );
}

#[test]
fn async_release_frees_without_shutdown() {
    let mut fake = Fake::new();
    let ctx = new_context(&mut fake);
    let (mut ssl, first) = AsyncSsl::new(&ctx, 9);
    assert_eq!(run(&mut fake, first, &mut vec![], |r| ssl.resume(r)), Ok(0));
    let recorded = fake.calls.len();
    let addr = ssl.handle().addr;
    let first = ssl.release();
    assert_eq!(run(&mut fake, first, &mut vec![], |r| ssl.resume(r)), Ok(0));
    assert_eq!(fake.calls[recorded..].to_vec(), vec![(addr, Call::Free)]);
    assert_eq!(fake.frees, 1);
}

#[test]
fn many_signals_then_success() {
    let mut fake = Fake::new();
    let ctx = new_context(&mut fake);
    let mut ssl = new_connection(&mut fake, &ctx, 3);
    let mut expected = vec![];
    for i in 0..50 {
        let (code, interest) =
            if i % 3 == 0 { (3, Interest::Writable) } else { (2, Interest::Readable) };
        fake.handshakes.push_back((-1, code));
        expected.push(interest);
    }
    fake.handshakes.push_back((1, 0));
    let first = ssl.accept();
    assert_eq!(run(&mut fake, first, &mut vec![], |r| ssl.resume(r)), Ok(0));
    assert_eq!(fake.waits, expected);
    let accepts = fake.calls.iter().filter(|(_, call)| *call == Call::Accept).count();
    assert_eq!(accepts, 51);
}

#[test]
fn failed_creation_leaves_nothing_allocated() {
    let mut fake = Fake::new();
    let ctx = new_context(&mut fake);
    // The fake accepts every setter, so let the binding be answered by hand.
    let (mut ssl, first) = AsyncSsl::new(&ctx, -1);
    let reply = fake.answer(first, &mut vec![]);
    let bind = ssl.resume(reply);
    assert!(matches!(bind, Request::Invoke { call: Call::SetFd { fd: -1 }, .. }));
    fake.queue.push(QueueEntry { code: 0x1000_0001, text: b"bad descriptor\0".to_vec() });
    let request = ssl.resume(Reply::Returned(0));
    let result = run(&mut fake, request, &mut vec![], |r| ssl.resume(r));
    assert_eq!(result, Err(SslError::Ssl(ErrorStack(vec!["bad descriptor".to_string()]))));
    assert_eq!(fake.allocs, 2);
    assert_eq!(fake.frees, 1);
    assert_eq!(fake.live, vec![ctx.handle().addr]);
    assert_eq!(ssl.handle().addr, 0);
}
