# uds-policy

The half of a privileged Unix-socket daemon that is the same whatever the daemon
does, as a verified library: the decisions it takes are stated in contracts and
proved, up to what the host answers when it is asked.

| Question | Module |
| --- | --- |
| Whose socket is this, and is it stale? | `socket` |
| Who is calling? | `caller` |
| May they? | `authorization`, `call` |
| What happened, and who did it? | `audit` |
| Is the daemon wedged, or merely busy? | `watchdog` |
| What did the client ask over HTTP, and what is it told? | `http`, `handler`, `service` |
| What is to be done on a connection, and in the serve loop? | `connection`, `exchange`, `server` |

`text`, `time`, `io` and `json` are what the others are written in.

The library does no input or output. It says what to do next and takes what came
of it: `socket::Binding` for taking a socket, `connection::Connection` for a
connection, with `exchange::Exchange` and `http::RequestReader` inside it, and
`server::ServeLoop` for the loop around them. `app/` holds the descriptors, the clock, the locks and the heartbeat
thread, and does what it is told.

## Laws

Beside the contracts of its functions the library states what holds of them
together, as public proof functions. Some of them:

- a file is removed as stale only once it was seen to be a socket that refuses a
  connection (`socket::only_a_proven_stale_socket_is_removed`);
- the kernel is asked who is calling before the first byte of a request is read,
  and calls are made for that caller
  (`connection::the_caller_is_read_before_the_request`,
  `connection::calls_are_made_for_the_caller_read_first`);
- a call runs only where the authorizer let its caller make it, and only after
  its announcement was written (`exchange::only_let_through_calls_are_taken_up`,
  `exchange::announced_before_it_runs`);
- a refusal comes before the body is parsed (`handler::refusal_precedes_parsing`);
- neither an account name nor a failure can forge a line of the audit trail
  (`audit::audit_line_cannot_be_forged`, `caller::account_name_is_one_short_line`);
- what a client writes is what is read, and it is answered with the reply to it
  (`http::a_framed_request_reads_back`, `exchange::a_framed_request_is_answered`);
- a caller is named, and a socket is given away, by what the host answered about
  that caller's uid and that socket's group
  (`caller::names_are_the_hosts_answers_about_their_uids`,
  `exchange::the_account_on_record_is_the_callers`,
  `socket::a_socket_is_given_to_its_own_group`);
- a bounded call cannot extend its own deadline
  (`watchdog::progress_does_not_extend_a_bounded_call`).

## What is not proved

The wrappers around `nix` and `serde_json` are believed: that the account and
group databases are asked about the uid and the name they are handed, how
`serde_json` reads and writes a value, and how a receive timeout is split. Each
says in its doc comment what it claims.

What a lookup leaves open is the answer. Which name the host has for a uid, which
id it has for a group, whether it answers the same twice, and how it words an
errno are the host's own: `caller::account_answer`, `socket::group_answer` and
`socket::errno_report` tie an answer to its question and say no more of it.
