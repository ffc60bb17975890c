# simpleddns

A dynamic DNS client: it finds this machine's public IPv4 and IPv6
addresses and keeps the A and AAAA records of the configured profiles
pointing at them, through Cloudflare, Aliyun DNS, DNSPod, GoDaddy,
Namecheap or any HTTP endpoint.

The library in `src/` is written in Verus and verified:

- `scheduler` — one update pass over the profiles as a state machine:
  which probe to ask next, when to give up on a family, when to call the
  provider, what to log and record.
- `providers` — each provider as a state machine from the reply of its last
  request to its next request, with the requests spelled out (URLs, query,
  form, headers, bodies, the Aliyun signature).
- `resolver`, `network`, `address` — probe sources, interface addresses and
  the text form of addresses.
- `config`, `profiles`, `status`, `clock` — the application configuration,
  the profile list and editor, the status of each profile and the time of day
  shown for it.
- `storage`, `vault` — secrets in the system credential store (the library
  states each request to the store and what it makes of the answers), or
  encrypted with AES-256-GCM under a key derived from the host name.
- `i18n`, `text`, `models` — interface texts, string helpers and the data
  types.

`app/` is the headless program around it: files, HTTP, interfaces, the
credential store and the loop that drives the state machines.
