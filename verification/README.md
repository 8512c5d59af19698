# hf-robot-account

Sign a browserless device in to a Hugging Face account, and keep it signed in. Unix only.

The device grant of RFC 8628: the robot asks for a code, somebody types it into a browser anywhere,
and the robot polls. What comes of it is a credential in a file, which a second, unprivileged
process may read.

## Layout

- `src/` — the rules, verified with Verus. Nothing in it waits, sends or writes: what takes time is
  a conversation in which a function says what to do next and is told how it went.
  - `account` — starting a login, waiting for its approval, status, signing out, renewal.
  - `oauth` — the four requests, and what the answers to them mean.
  - `store` — the credential, and the steps by which it gets to a disk.
  - `config`, `status`, `error`, `time`, `text` — what the others are made of.
  - `laws` — what holds of the account over several calls, whatever else happens meanwhile: one
    login at a time; what is approved is what is stored; after a sign-out, whatever was in flight
    leaves the store empty, given that a record it still wrote can be removed again.
  - `disk` — what holds of every instant of a save: the credential is replaced atomically and
    survives a power cut; no file a save makes is readable by other users, unless the store was
    given a mode that says so; and a group never costs the token.
- `app/` — the other end of the conversations: HTTP, JSON, files, groups, the clock and the tasks.
- `tests/` — the conversations, played through.

## Using it

```rust
let store = FileStore::at("/etc/robot/hf-token").readable_by_group("robot");
let account = Arc::new(Account::new(store, Config::from_env()));

// Renew the token for as long as this process runs.
tokio::spawn(maintain(Arc::clone(&account)));

let code = account.login(false).await?;
println!("Open {} and type {}", code.verification_uri, code.user_code);
```

`login` answers with a code and returns. The polling runs in a task of its own, so the client that
asked is free to disconnect; it comes back to `account.status()` to find out what happened.

## Two things a caller must get right

**Show the code.** Hugging Face sends no `verification_uri_complete`, and its device page ignores
`?user_code=`, so no URL carries the code and displaying it is the caller's whole job.

**Expect the client to vanish mid-flow.** `status` carries the code with the time that is left on
it, so a client that lost track of one rejoins it rather than starting another.

## The credential

```text
/etc/robot/hf-token   root:robot 0640
{"access_token": "...", "refresh_token": "...", "expires_at": 1788000000, "username": "..."}
```

Tokens last 30 days and **the refresh token rotates on every refresh**. `maintain` renews when under
a week is left. One window cannot be closed: a power cut between the server issuing a new pair and
the pair reaching the disk leaves a credential that cannot be renewed. It surfaces in
`Status::last_error` and is fixed by signing in again.

`logout` **forgets rather than revokes**: the token itself stays valid at Hugging Face until it
expires, for anything that read the file while it was there.
