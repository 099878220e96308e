# rtnetlink (verified core)

Builders for route netlink requests, verified with Verus.

- `src/link/` builds link messages for Linux bridges: the generic
  `LinkMessageBuilder`, the bridge attributes (`info`), the packed bridge
  boolean options (`bool_opt`) and the bridge setters with their laws
  (`bridge`).
- `src/traffic_control/` builds the requests that create and delete
  traffic-control filter chains: the message model (`message`) and the two
  requests (`add_chain`, `del_chain`).
- `app/` converts the library's messages to the `netlink-packet-route`
  types and executes the chain requests over a connection.
- `tests/` runs the builders on concrete values.
