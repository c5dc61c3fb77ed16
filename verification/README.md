# rqbit_tunnel

The rules of a client/server tunnel, written and proved in Verus.

- `egress`: which destinations the relay may reach. Ports are checked before a host name is looked
  up, addresses after. `special_use` names the address blocks outside the public internet,
  `subnet` and `ip_ranges` turn them into ranges, `authority` spells what is looked up.
- `flow`: credit-based flow control. What one stream has in flight never exceeds its window.
- `idle`: the watchdog that cancels a stream on which nothing happens.
- `options`, `service`: the two roles, their configuration, and starting from it.
- `net`, `frame`: addresses, keys, destinations and error codes as plain values.

The laws that hold across these functions stand as public `law_*` proof functions beside them.

`app/` is the asynchronous shell: it performs the lookups, waits for credit, runs the timers and
calls the library for every decision.
